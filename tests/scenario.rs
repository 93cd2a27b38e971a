use std::cell::RefCell;
use std::collections::hash_map::DefaultHasher;
use std::hash::{Hash, Hasher};

use kv_store::{EngineCall, FlashRequest, KVStoreDriver, Operation, ReturnCode};
use tickv::error_codes::ErrorCode;
use tickv::{AsyncTicKV, FlashController, TicKV, MAIN_KEY};

const S: usize = 1024;
const REGIONS: usize = 4;

fn hash_of(bytes: &[u8]) -> u64 {
    let mut h = DefaultHasher::new();
    bytes.hash(&mut h);
    h.finish()
}

/// A flash image filled by the engine through a synchronous controller.
struct Ram(RefCell<Vec<[u8; S]>>);

impl FlashController<S> for Ram {
    fn read_region(&self, region: usize, buf: &mut [u8; S]) -> Result<(), ErrorCode> {
        buf.copy_from_slice(&self.0.borrow()[region]);
        Ok(())
    }

    fn write(&self, address: usize, buf: &[u8]) -> Result<(), ErrorCode> {
        let (region, offset) = (address / S, address % S);
        self.0.borrow_mut()[region][offset..offset + buf.len()].copy_from_slice(buf);
        Ok(())
    }

    fn erase_region(&self, region: usize) -> Result<(), ErrorCode> {
        self.0.borrow_mut()[region] = [0xff; S];
        Ok(())
    }
}

fn populated(key: &[u8], value: &[u8]) -> Vec<[u8; S]> {
    let mut read_buf = [0u8; S];
    let store = TicKV::<Ram, S>::new(Ram(RefCell::new(vec![[0xff; S]; REGIONS])), &mut read_buf, S * REGIONS);
    store.initialise(hash_of(MAIN_KEY)).unwrap();
    store.append_key(hash_of(key), value).unwrap();
    let pages = store.controller.0.borrow().clone();
    pages
}

/// The engine's view of the driver's adapter.
struct Glue<'d>(&'d RefCell<KVStoreDriver>);

impl<'d> FlashController<S> for Glue<'d> {
    fn read_region(&self, region: usize, buf: &mut [u8; S]) -> Result<(), ErrorCode> {
        let mut v = buf.to_vec();
        let r = self.0.borrow_mut().controller.read_region(region, &mut v);
        buf.copy_from_slice(&v[..S]);
        r
    }

    fn write(&self, address: usize, buf: &[u8]) -> Result<(), ErrorCode> {
        self.0.borrow_mut().controller.write(address, buf)
    }

    fn erase_region(&self, region: usize) -> Result<(), ErrorCode> {
        self.0.borrow_mut().controller.erase_region(region)
    }
}

/// Plays the flash device until nothing is queued, resuming the engine
/// whenever the driver asks; returns the callbacks to schedule.
fn service(driver: &RefCell<KVStoreDriver>, engine: &AsyncTicKV<Glue, S>, pages: &mut Vec<[u8; S]>) -> Vec<usize> {
    let mut callbacks = Vec::new();
    loop {
        let request = driver.borrow_mut().controller.take_request();
        let resume = match request {
            None => break,
            Some(FlashRequest::ReadPage(p, mut page)) => {
                page.copy_from_slice(&pages[p]);
                engine.set_read_buffer(&page);
                driver.borrow_mut().read_complete(page, false)
            }
            Some(FlashRequest::WritePage(_, page)) => {
                let done = driver.borrow_mut().write_complete(page, false);
                callbacks.extend(done);
                false
            }
            Some(FlashRequest::ErasePage(p)) => {
                pages[p] = [0xff; S];
                driver.borrow_mut().erase_complete(false)
            }
        };
        if resume {
            let (ret, buf, _len) = engine.continue_operation();
            let value = buf.map(|b| b.to_vec());
            let done = driver.borrow_mut().engine_result(ret, value);
            callbacks.extend(done);
        }
    }
    callbacks
}

fn start_lookup(driver: &RefCell<KVStoreDriver>, engine: &AsyncTicKV<Glue, S>) {
    let call = driver.borrow_mut().take_engine_call();
    let (key, value) = match call {
        Some(EngineCall::GetKey(key, value)) => (key, value),
        None => panic!("no engine call"),
    };
    let buf: &'static mut [u8] = Box::leak(value.into_boxed_slice());
    let ret = engine.get_key(hash_of(&key), buf);
    let done = match ret {
        Ok(code) => driver.borrow_mut().engine_result(Ok(code), None),
        Err((buf, e)) => driver.borrow_mut().engine_result(Err(e), Some(buf.to_vec())),
    };
    assert_eq!(done, None);
}

#[test]
fn lookup_of_stored_key_fires_callback_once_with_value() {
    let stored = [0x10u8, 0x20, 0x30, 0x40, 0x50, 0x60, 0x70, 0x80, 0x90, 0xa0];
    let mut pages = populated(b"KEY1", &stored);
    let driver = RefCell::new(KVStoreDriver::new(vec![0u8; S], 0));
    let mut read_buf = [0u8; S];
    let engine = AsyncTicKV::<Glue, S>::new(Glue(&driver), &mut read_buf, S * REGIONS);

    let ret = engine.initialise(hash_of(MAIN_KEY));
    driver.borrow_mut().initalise(ret);
    assert_eq!(driver.borrow().operation, Operation::Init);
    assert!(service(&driver, &engine, &mut pages).is_empty());
    assert_eq!(driver.borrow().operation, Operation::Idle);

    {
        let mut d = driver.borrow_mut();
        assert_eq!(d.allow(1, 0, Some(b"KEY1".to_vec())), ReturnCode::Success);
        assert_eq!(d.allow(1, 1, Some(vec![0u8; 16])), ReturnCode::Success);
        assert_eq!(d.subscribe(0, Some(77), 1), ReturnCode::Success);
        assert_eq!(d.command(1, 4, 0, 1), ReturnCode::Success);
    }
    start_lookup(&driver, &engine);
    assert_eq!(driver.borrow().operation, Operation::GetKey);

    let callbacks = service(&driver, &engine, &mut pages);
    assert_eq!(callbacks, vec![77]);
    let d = driver.borrow();
    assert_eq!(d.operation, Operation::Idle);
    let value = d.apps.get(&1).unwrap().value.as_ref().unwrap();
    assert_eq!(&value[..stored.len()], &stored[..]);
}

#[test]
fn lookup_of_absent_key_still_completes_once() {
    let mut pages = populated(b"KEY1", &[1, 2, 3]);
    let driver = RefCell::new(KVStoreDriver::new(vec![0u8; S], 0));
    let mut read_buf = [0u8; S];
    let engine = AsyncTicKV::<Glue, S>::new(Glue(&driver), &mut read_buf, S * REGIONS);
    let ret = engine.initialise(hash_of(MAIN_KEY));
    driver.borrow_mut().initalise(ret);
    service(&driver, &engine, &mut pages);

    {
        let mut d = driver.borrow_mut();
        d.allow(2, 0, Some(b"NOPE".to_vec()));
        d.allow(2, 1, Some(vec![0u8; 16]));
        d.subscribe(0, Some(5), 2);
        assert_eq!(d.command(1, 4, 0, 2), ReturnCode::Success);
    }
    start_lookup(&driver, &engine);
    assert_eq!(service(&driver, &engine, &mut pages), vec![5]);
    let d = driver.borrow();
    assert_eq!(d.operation, Operation::Idle);
    assert!(d.apps.get(&2).unwrap().value.is_some());
}

#[test]
fn second_lookup_busy_until_first_callback() {
    let mut pages = populated(b"KEY1", &[9, 8, 7, 6]);
    let driver = RefCell::new(KVStoreDriver::new(vec![0u8; S], 0));
    let mut read_buf = [0u8; S];
    let engine = AsyncTicKV::<Glue, S>::new(Glue(&driver), &mut read_buf, S * REGIONS);
    let ret = engine.initialise(hash_of(MAIN_KEY));
    driver.borrow_mut().initalise(ret);
    service(&driver, &engine, &mut pages);

    {
        let mut d = driver.borrow_mut();
        for (appid, callback) in [(1usize, 11usize), (2, 22)] {
            d.allow(appid, 0, Some(b"KEY1".to_vec()));
            d.allow(appid, 1, Some(vec![0u8; 16]));
            d.subscribe(0, Some(callback), appid);
        }
        assert_eq!(d.command(1, 4, 0, 1), ReturnCode::Success);
    }
    start_lookup(&driver, &engine);
    assert_eq!(driver.borrow_mut().command(1, 4, 0, 2), ReturnCode::Busy);
    assert_eq!(service(&driver, &engine, &mut pages), vec![11]);

    assert_eq!(driver.borrow_mut().command(1, 4, 0, 2), ReturnCode::Success);
    start_lookup(&driver, &engine);
    assert_eq!(service(&driver, &engine, &mut pages), vec![22]);
    let d = driver.borrow();
    assert_eq!(&d.apps.get(&2).unwrap().value.as_ref().unwrap()[..4], &[9, 8, 7, 6]);
}
