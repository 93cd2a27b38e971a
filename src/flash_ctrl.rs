use vstd::prelude::*;

use tickv::error_codes::ErrorCode;

verus! {

/// Base address of the flash bank that byte-addressed writes land in.
pub const FLASH_BASE: usize = 0x2004_0000;

/// Size in bytes of one flash page.
pub const PAGE_SIZE: usize = 1024;

/// The flash access that is outstanding, and what it targets.
#[derive(Clone, Copy, Debug, PartialEq, Eq, Structural)]
pub enum State {
    Idle,
    ReadComplete(isize),
    WriteComplete(usize),
    EraseComplete(usize),
}

/// A page-level call for the flash device. Reads and writes carry the
/// data buffer with them: whoever holds the request holds the page.
#[derive(Debug)]
pub enum FlashRequest {
    ReadPage(usize, Vec<u8>),
    WritePage(usize, Vec<u8>),
    ErasePage(usize),
}

impl FlashRequest {
    pub open spec fn carries_buffer(&self) -> bool {
        !(self is ErasePage)
    }
}

/// The physical page that a byte address of the store falls in. `FLASH_BASE`
/// is page-aligned, so this is the page of `FLASH_BASE + address`.
pub open spec fn write_page_of(address: int) -> int {
    FLASH_BASE as int / PAGE_SIZE as int + address / PAGE_SIZE as int
}

/// Who holds the single data buffer.
#[derive(Clone, Copy, Debug, PartialEq, Eq, Structural)]
pub enum Holder {
    Adapter,
    Request,
    Device,
}

/// Serves the engine's synchronous-shaped flash calls from an asynchronous
/// device: a call either completes from the page fetched earlier, or queues a
/// device request and answers "not ready".
pub struct TicKVFlashCtrl {
    /// The data buffer, while the adapter holds it.
    pub data_buffer: Option<Vec<u8>>,
    /// The access that was issued last and has not been consumed.
    pub state: State,
    /// First page of the store's region on the device.
    pub region_offset: usize,
    /// A request queued for the device and not yet taken by it.
    pub request: Option<FlashRequest>,
    /// The last completed device access reported a failure.
    pub hw_failed: bool,
}

impl TicKVFlashCtrl {
    /// Where the data buffer is.
    pub open spec fn holder(&self) -> Holder {
        if self.data_buffer is Some {
            Holder::Adapter
        } else if self.request is Some && self.request->0.carries_buffer() {
            Holder::Request
        } else {
            Holder::Device
        }
    }

    /// The buffer is in at most one place.
    pub open spec fn wf(&self) -> bool {
        self.data_buffer is Some ==> !(self.request is Some && self.request->0.carries_buffer())
    }

    /// The adapter can take an engine call: it holds the page and has no
    /// request waiting for the device.
    pub open spec fn ready(&self) -> bool {
        self.data_buffer is Some && self.request is None
    }

    /// The page fetched for `region` is waiting to be handed to the engine.
    pub open spec fn has_cached(&self, region: int) -> bool {
        match self.state {
            State::ReadComplete(reg) => reg >= 0 && reg == region,
            _ => false,
        }
    }

    pub fn new(data_buffer: Vec<u8>, region_offset: usize) -> (r: TicKVFlashCtrl)
        ensures
            r.wf(),
            r.ready(),
            r.data_buffer == Some(data_buffer),
            r.state == State::Idle,
            r.region_offset == region_offset,
            !r.hw_failed,
    {
        TicKVFlashCtrl {
            data_buffer: Some(data_buffer),
            state: State::Idle,
            region_offset,
            request: None,
            hw_failed: false,
        }
    }

    /// Hands the engine the contents of `region_number`. Served from the page
    /// when that region was fetched by the last device read; otherwise a read
    /// of the region's page is queued and the engine is told to retry.
    pub fn read_region(&mut self, region_number: usize, buf: &mut Vec<u8>) -> (r: Result<(), ErrorCode>)
        requires
            old(self).wf(),
            old(self).ready(),
            old(self).region_offset + region_number <= usize::MAX,
            old(buf)@.len() >= old(self).data_buffer->0@.len(),
        ensures
            final(self).wf(),
            final(self).region_offset == old(self).region_offset,
            !final(self).hw_failed,
            old(self).hw_failed ==> {
                &&& r == Err::<(), ErrorCode>(ErrorCode::ReadFail)
                &&& *final(buf) == *old(buf)
                &&& final(self).ready()
                &&& final(self).data_buffer == old(self).data_buffer
                &&& final(self).state == State::Idle
            },
            !old(self).hw_failed && old(self).has_cached(region_number as int) ==> {
                &&& r == Ok::<(), ErrorCode>(())
                &&& final(buf)@ == old(self).data_buffer->0@ + old(buf)@.subrange(
                    old(self).data_buffer->0@.len() as int,
                    old(buf)@.len() as int,
                )
                &&& final(self).data_buffer == old(self).data_buffer
                &&& final(self).request is None
                &&& final(self).state == State::Idle
            },
            !old(self).hw_failed && !old(self).has_cached(region_number as int) ==> {
                &&& r == Err::<(), ErrorCode>(ErrorCode::ReadNotReady(region_number))
                &&& *final(buf) == *old(buf)
                &&& final(self).data_buffer is None
                &&& final(self).request == Some(
                    FlashRequest::ReadPage(
                        (old(self).region_offset + region_number) as usize,
                        old(self).data_buffer->0,
                    ),
                )
                &&& final(self).state == State::ReadComplete(region_number as isize)
                &&& final(self).holder() == Holder::Request
            },
    {
        if self.hw_failed {
            self.hw_failed = false;
            self.state = State::Idle;
            return Err(ErrorCode::ReadFail);
        }
        let cached = match self.state {
            State::ReadComplete(reg) => reg >= 0 && reg as usize == region_number,
            _ => false,
        };
        let page = self.data_buffer.take().unwrap();
        if cached {
            let n = page.len();
            let mut i: usize = 0;
            while i < n
                invariant
                    n == page@.len(),
                    i <= n,
                    buf@.len() == old(buf)@.len(),
                    n <= buf@.len(),
                    forall|j: int| 0 <= j < i ==> buf@[j] == page@[j],
                    forall|j: int| i <= j < buf@.len() ==> buf@[j] == old(buf)@[j],
                decreases n - i,
            {
                buf.set(i, page[i]);
                i = i + 1;
            }
            assert(buf@ =~= page@ + old(buf)@.subrange(n as int, old(buf)@.len() as int));
            self.data_buffer = Some(page);
            self.state = State::Idle;
            Ok(())
        } else {
            self.request = Some(FlashRequest::ReadPage(self.region_offset + region_number, page));
            self.state = State::ReadComplete(region_number as isize);
            Err(ErrorCode::ReadNotReady(region_number))
        }
    }


    /// Copies `bytes` to the front of the page and queues a write of that page
    /// to the device. A write never completes synchronously.
    pub fn write(&mut self, address: usize, bytes: &[u8]) -> (r: Result<(), ErrorCode>)
        requires
            old(self).wf(),
            old(self).ready(),
            bytes@.len() <= old(self).data_buffer->0@.len(),
        ensures
            final(self).wf(),
            final(self).region_offset == old(self).region_offset,
            final(self).hw_failed == old(self).hw_failed,
            r == Err::<(), ErrorCode>(ErrorCode::WriteNotReady(address)),
            final(self).data_buffer is None,
            final(self).state == State::WriteComplete(address),
            final(self).holder() == Holder::Request,
            match final(self).request {
                Some(FlashRequest::WritePage(page, data)) => {
                    &&& page == write_page_of(address as int)
                    &&& data@ == bytes@ + old(self).data_buffer->0@.subrange(
                        bytes@.len() as int,
                        old(self).data_buffer->0@.len() as int,
                    )
                },
                _ => false,
            },
    {
        let mut page = self.data_buffer.take().unwrap();
        let ghost before = page@;
        let n = bytes.len();
        let mut i: usize = 0;
        while i < n
            invariant
                n == bytes@.len(),
                i <= n,
                page@.len() == before.len(),
                n <= before.len(),
                forall|j: int| 0 <= j < i ==> page@[j] == bytes@[j],
                forall|j: int| i <= j < page@.len() ==> page@[j] == before[j],
            decreases n - i,
        {
            page.set(i, bytes[i]);
            i = i + 1;
        }
        assert(page@ =~= bytes@ + before.subrange(n as int, before.len() as int));
        let index = FLASH_BASE / PAGE_SIZE + address / PAGE_SIZE;
        self.request = Some(FlashRequest::WritePage(index, page));
        self.state = State::WriteComplete(address);
        Err(ErrorCode::WriteNotReady(address))
    }

    /// Queues an erase of the region's page. An erase never completes
    /// synchronously; the page buffer stays with the adapter.
    pub fn erase_region(&mut self, region_number: usize) -> (r: Result<(), ErrorCode>)
        requires
            old(self).wf(),
            old(self).ready(),
            old(self).region_offset + region_number <= usize::MAX,
        ensures
            final(self).wf(),
            final(self).region_offset == old(self).region_offset,
            final(self).hw_failed == old(self).hw_failed,
            final(self).data_buffer == old(self).data_buffer,
            r == Err::<(), ErrorCode>(ErrorCode::EraseNotReady(region_number)),
            final(self).request == Some(
                FlashRequest::ErasePage((old(self).region_offset + region_number) as usize),
            ),
            final(self).state == State::EraseComplete(region_number),
            final(self).holder() == Holder::Adapter,
    {
        self.request = Some(FlashRequest::ErasePage(self.region_offset + region_number));
        self.state = State::EraseComplete(region_number);
        Err(ErrorCode::EraseNotReady(region_number))
    }

    /// The device takes the queued request, and with it the page it carries.
    pub fn take_request(&mut self) -> (r: Option<FlashRequest>)
        requires
            old(self).wf(),
        ensures
            final(self).wf(),
            r == old(self).request,
            final(self).request is None,
            final(self).data_buffer == old(self).data_buffer,
            final(self).state == old(self).state,
            final(self).region_offset == old(self).region_offset,
            final(self).hw_failed == old(self).hw_failed,
            r is Some && r->0.carries_buffer() ==> final(self).holder() == Holder::Device,
    {
        self.request.take()
    }

    /// The device refused a request it took: the page comes back, nothing is
    /// outstanding, and the engine is told the access failed.
    pub fn refuse_request(&mut self, request: FlashRequest) -> (r: ErrorCode)
        requires
            old(self).wf(),
            old(self).request is None,
            request.carries_buffer() <==> old(self).data_buffer is None,
        ensures
            final(self).wf(),
            final(self).ready(),
            final(self).state == State::Idle,
            final(self).region_offset == old(self).region_offset,
            final(self).hw_failed == old(self).hw_failed,
            match request {
                FlashRequest::ReadPage(_, page) => {
                    &&& r == ErrorCode::ReadFail
                    &&& final(self).data_buffer == Some(page)
                },
                FlashRequest::WritePage(_, page) => {
                    &&& r == ErrorCode::WriteFail
                    &&& final(self).data_buffer == Some(page)
                },
                FlashRequest::ErasePage(_) => {
                    &&& r == ErrorCode::EraseFail
                    &&& final(self).data_buffer == old(self).data_buffer
                },
            },
    {
        self.state = State::Idle;
        match request {
            FlashRequest::ReadPage(_, page) => {
                self.data_buffer = Some(page);
                ErrorCode::ReadFail
            },
            FlashRequest::WritePage(_, page) => {
                self.data_buffer = Some(page);
                ErrorCode::WriteFail
            },
            FlashRequest::ErasePage(_) => ErrorCode::EraseFail,
        }
    }

    /// The device hands back the page after a read or a write; `failed` says
    /// whether it reported a failure, which the next read reports to the engine.
    pub fn page_returned(&mut self, page: Vec<u8>, failed: bool)
        requires
            old(self).wf(),
            old(self).holder() == Holder::Device,
        ensures
            final(self).wf(),
            final(self).ready(),
            final(self).data_buffer == Some(page),
            final(self).state == old(self).state,
            final(self).region_offset == old(self).region_offset,
            final(self).hw_failed == failed,
    {
        self.data_buffer = Some(page);
        self.request = None;
        self.hw_failed = failed;
    }

    /// Clears the record of the outstanding access.
    pub fn clear_state(&mut self)
        ensures
            final(self).state == State::Idle,
            final(self).data_buffer == old(self).data_buffer,
            final(self).request == old(self).request,
            final(self).region_offset == old(self).region_offset,
            final(self).hw_failed == old(self).hw_failed,
    {
        self.state = State::Idle;
    }

} // impl TicKVFlashCtrl

} // verus!

verus! {

/// The data buffer is never in two places: the adapter and a queued request
/// do not both hold it, so exactly one of adapter, request and device does.
pub proof fn lemma_single_holder(c: TicKVFlashCtrl)
    requires
        c.wf(),
    ensures
        !(c.data_buffer is Some && c.request is Some && c.request->0.carries_buffer()),
        (c.holder() == Holder::Adapter) == (c.data_buffer is Some),
        (c.holder() == Holder::Request) == (c.data_buffer is None && c.request is Some
            && c.request->0.carries_buffer()),
{
}

} // verus!
