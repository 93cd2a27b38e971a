use vstd::prelude::*;

use std::collections::HashMap;
use tickv::error_codes::ErrorCode;
use tickv::success_codes::SuccessCode;

use crate::engine::{is_not_ready, is_terminal};
use crate::flash_ctrl::{State, TicKVFlashCtrl};

verus! {

broadcast use vstd::std_specs::hash::group_hash_axioms;

/// The logical engine operation in flight; at most one at any time.
#[derive(Clone, Copy, Debug, PartialEq, Eq, Structural)]
pub enum Operation {
    Idle,
    Init,
    GetKey,
}

/// The status a request returns synchronously.
#[derive(Clone, Copy, Debug, PartialEq, Eq, Structural)]
pub enum ReturnCode {
    Success,
    Fail,
    Busy,
    NoSupport,
}

/// One client's slot: its registered buffers, the key length of its last
/// lookup, and the identifier of its completion callback.
pub struct App {
    pub callback: Option<usize>,
    pub key: Option<Vec<u8>>,
    pub key_len: Option<usize>,
    pub value: Option<Vec<u8>>,
}

impl App {
    pub open spec fn is_empty(&self) -> bool {
        &&& self.callback is None
        &&& self.key is None
        &&& self.key_len is None
        &&& self.value is None
    }
}

impl Default for App {
    fn default() -> (r: App)
        ensures
            r.is_empty(),
    {
        App { callback: None, key: None, key_len: None, value: None }
    }
}

/// An engine call that the driver has admitted and that the engine's owner
/// must now make.
#[derive(Debug)]
pub enum EngineCall {
    /// Look up the key held in the first buffer, writing the value into the
    /// second.
    GetKey(Vec<u8>, Vec<u8>),
}

/// The driver: owns the flash adapter and the client slots, admits one
/// operation at a time, and routes flash completions back to the engine.
pub struct KVStoreDriver {
    pub controller: TicKVFlashCtrl,
    pub apps: HashMap<usize, App>,
    /// The client that owns the operation in flight.
    pub appid: Option<usize>,
    pub operation: Operation,
    /// An admitted engine call not yet taken by the engine's owner.
    pub call: Option<EngineCall>,
}

/// The slot of `id`, or an empty one where the client has none yet.
pub open spec fn slot(apps: Map<usize, App>, id: usize) -> App {
    if apps.contains_key(id) {
        apps[id]
    } else {
        App { callback: None, key: None, key_len: None, value: None }
    }
}

/// The flash access that the engine's answer says it waits for; a queued
/// operation waits for the access the adapter recorded, `current`.
pub open spec fn pending_of(ret: Result<SuccessCode, ErrorCode>, current: State) -> State {
    match ret {
        Ok(SuccessCode::Queued) => current,
        Err(ErrorCode::ReadNotReady(reg)) => State::ReadComplete(reg as isize),
        Err(ErrorCode::EraseNotReady(reg)) => State::EraseComplete(reg),
        Err(ErrorCode::WriteNotReady(reg)) => State::WriteComplete(reg),
        _ => State::Idle,
    }
}

/// The operation in flight after the engine answers `ret` while `op` was.
pub open spec fn op_after(op: Operation, ret: Result<SuccessCode, ErrorCode>) -> Operation {
    if is_not_ready(ret) {
        op
    } else {
        Operation::Idle
    }
}

/// The answer `ret` ends a client's lookup, so its owner is to be called back.
pub open spec fn delivers(op: Operation, ret: Result<SuccessCode, ErrorCode>) -> bool {
    op == Operation::GetKey && is_terminal(ret)
}

/// The operation left after a run of engine answers from `op`, and how many
/// client callbacks the run delivers.
pub open spec fn run(op: Operation, rets: Seq<Result<SuccessCode, ErrorCode>>) -> (Operation, nat)
    decreases rets.len(),
{
    if rets.len() == 0 {
        (op, 0)
    } else {
        let rest = run(op_after(op, rets[0]), rets.drop_first());
        (rest.0, rest.1 + if delivers(op, rets[0]) { 1nat } else { 0nat })
    }
}

/// What a get-by-key request returns, given the operation in flight and the
/// requesting client's slot.
pub open spec fn get_key_status(
    operation: Operation,
    app: App,
    key_len: usize,
) -> ReturnCode {
    if operation != Operation::Idle {
        ReturnCode::Busy
    } else if app.key is None || app.value is None {
        ReturnCode::Fail
    } else if key_len > app.key->0@.len() {
        ReturnCode::Fail
    } else {
        ReturnCode::Success
    }
}

impl KVStoreDriver {
    pub open spec fn wf(&self) -> bool {
        &&& self.controller.wf()
        &&& self.operation == Operation::GetKey <==> self.appid is Some
        &&& self.call is Some ==> self.operation == Operation::GetKey
    }

    /// The client slots as a map.
    pub open spec fn slots(&self) -> Map<usize, App> {
        self.apps@
    }

    pub fn new(data_buffer: Vec<u8>, region_offset: usize) -> (r: KVStoreDriver)
        ensures
            r.wf(),
            r.controller.ready(),
            r.controller.state == State::Idle,
            r.controller.region_offset == region_offset,
            r.operation == Operation::Idle,
            r.slots() == Map::<usize, App>::empty(),
            r.call is None,
    {
        KVStoreDriver {
            controller: TicKVFlashCtrl::new(data_buffer, region_offset),
            apps: HashMap::new(),
            appid: None,
            operation: Operation::Idle,
            call: None,
        }
    }

    /// Records what the engine's answer means for the flash access in flight:
    /// a "not ready" names it; any other answer ends the operation.
    pub fn update_state(&mut self, ret: Result<SuccessCode, ErrorCode>)
        requires
            old(self).wf(),
            old(self).call is None,
        ensures
            final(self).wf(),
            final(self).apps == old(self).apps,
            final(self).call is None,
            final(self).controller.data_buffer == old(self).controller.data_buffer,
            final(self).controller.request == old(self).controller.request,
            final(self).controller.region_offset == old(self).controller.region_offset,
            final(self).controller.hw_failed == old(self).controller.hw_failed,
            is_not_ready(ret) ==> {
                &&& final(self).operation == old(self).operation
                &&& final(self).appid == old(self).appid
            },
            is_terminal(ret) ==> {
                &&& final(self).operation == Operation::Idle
                &&& final(self).appid is None
                &&& final(self).controller.state == State::Idle
            },
            final(self).controller.state == pending_of(ret, old(self).controller.state),
    {
        let state = match ret {
            Ok(SuccessCode::Queued) => self.controller.state,
            Err(ErrorCode::ReadNotReady(reg)) => State::ReadComplete(reg as isize),
            Err(ErrorCode::EraseNotReady(reg)) => State::EraseComplete(reg),
            Err(ErrorCode::WriteNotReady(reg)) => State::WriteComplete(reg),
            _ => {
                self.operation = Operation::Idle;
                self.appid = None;
                State::Idle
            },
        };
        self.controller.state = state;
    }


    /// Takes the slot of `appid` out of the store, or an empty one.
    fn take_slot(&mut self, appid: usize) -> (r: App)
        ensures
            r == slot(old(self).slots(), appid),
            final(self).slots() == old(self).slots().remove(appid),
            final(self).controller == old(self).controller,
            final(self).appid == old(self).appid,
            final(self).operation == old(self).operation,
            final(self).call == old(self).call,
    {
        match self.apps.remove(&appid) {
            Some(app) => app,
            None => App::default(),
        }
    }

    /// Binds a buffer of the client: 0 is the key buffer, 1 the value buffer.
    pub fn allow(&mut self, appid: usize, allow_num: usize, slice: Option<Vec<u8>>) -> (r: ReturnCode)
        requires
            old(self).wf(),
        ensures
            final(self).wf(),
            final(self).controller == old(self).controller,
            final(self).operation == old(self).operation,
            final(self).appid == old(self).appid,
            final(self).call == old(self).call,
            allow_num == 0 ==> r == ReturnCode::Success && final(self).slots() == old(self).slots().insert(
                appid,
                App { key: slice, ..slot(old(self).slots(), appid) },
            ),
            allow_num == 1 ==> r == ReturnCode::Success && final(self).slots() == old(self).slots().insert(
                appid,
                App { value: slice, ..slot(old(self).slots(), appid) },
            ),
            allow_num > 1 ==> r == ReturnCode::NoSupport && final(self).slots() == old(self).slots(),
    {
        if allow_num > 1 {
            return ReturnCode::NoSupport;
        }
        let mut app = self.take_slot(appid);
        if allow_num == 0 {
            app.key = slice;
        } else {
            app.value = slice;
        }
        self.apps.insert(appid, app);
        assert(self.slots() =~= old(self).slots().insert(appid, app));
        ReturnCode::Success
    }

    /// Binds the client's completion callback: 0 is the only subscription.
    pub fn subscribe(&mut self, subscribe_num: usize, callback: Option<usize>, appid: usize) -> (r: ReturnCode)
        requires
            old(self).wf(),
        ensures
            final(self).wf(),
            final(self).controller == old(self).controller,
            final(self).operation == old(self).operation,
            final(self).appid == old(self).appid,
            final(self).call == old(self).call,
            subscribe_num == 0 ==> r == ReturnCode::Success && final(self).slots() == old(self).slots().insert(
                appid,
                App { callback: callback, ..slot(old(self).slots(), appid) },
            ),
            subscribe_num != 0 ==> r == ReturnCode::NoSupport && final(self).slots() == old(self).slots(),
    {
        if subscribe_num != 0 {
            return ReturnCode::NoSupport;
        }
        let mut app = self.take_slot(appid);
        app.callback = callback;
        self.apps.insert(appid, app);
        assert(self.slots() =~= old(self).slots().insert(appid, app));
        ReturnCode::Success
    }

    /// A request of the client. 1 looks up the key in the first `key_len`
    /// bytes of the key buffer; 0 (set), 2 (invalidate) and 3 (garbage
    /// collection) are accepted and do nothing; any other code is unsupported.
    ///
    /// A lookup is admitted only while no operation is in flight, the client
    /// has both buffers, and `key_len` fits its key buffer. Then the value
    /// buffer leaves the slot with the call for the engine, and the client owns
    /// the operation.
    pub fn command(&mut self, command_num: usize, key_len: usize, _data2: usize, appid: usize) -> (r: ReturnCode)
        requires
            old(self).wf(),
        ensures
            final(self).wf(),
            final(self).controller == old(self).controller,
            command_num != 1 || r != ReturnCode::Success ==> {
                &&& final(self).operation == old(self).operation
                &&& final(self).appid == old(self).appid
                &&& final(self).call == old(self).call
                &&& final(self).slots() == old(self).slots()
            },
            command_num == 0 || command_num == 2 || command_num == 3 ==> r == ReturnCode::Success,
            command_num > 3 ==> r == ReturnCode::NoSupport,
            command_num == 1 ==> r == get_key_status(
                old(self).operation,
                slot(old(self).slots(), appid),
                key_len,
            ),
            command_num == 1 && r == ReturnCode::Success ==> {
                let app = slot(old(self).slots(), appid);
                &&& final(self).operation == Operation::GetKey
                &&& final(self).appid == Some(appid)
                &&& match final(self).call {
                    Some(EngineCall::GetKey(k, v)) => {
                        &&& k@ == app.key->0@.subrange(0, key_len as int)
                        &&& v == app.value->0
                    },
                    None => false,
                }
                &&& final(self).slots() == old(self).slots().insert(
                    appid,
                    App { value: None, key_len: Some(key_len), ..app },
                )
            },
    {
        if command_num == 0 || command_num == 2 || command_num == 3 {
            return ReturnCode::Success;
        }
        if command_num != 1 {
            return ReturnCode::NoSupport;
        }
        if self.operation != Operation::Idle {
            return ReturnCode::Busy;
        }
        let ghost before = self.slots();
        let existed = self.apps.contains_key(&appid);
        let mut app = self.take_slot(appid);
        let ghost app0 = app;
        if app.key.is_none() || app.value.is_none() || key_len > app.key.as_ref().unwrap().len() {
            if existed {
                self.apps.insert(appid, app);
                assert(self.slots() =~= before);
            } else {
                assert(self.slots() =~= before);
            }
            return ReturnCode::Fail;
        }
        let key = app.key.as_ref().unwrap();
        let mut bytes: Vec<u8> = Vec::new();
        let mut i: usize = 0;
        while i < key_len
            invariant
                i <= key_len,
                key_len <= key@.len(),
                bytes@ == key@.subrange(0, i as int),
            decreases key_len - i,
        {
            bytes.push(key[i]);
            i = i + 1;
        }
        let value = app.value.take().unwrap();
        app.key_len = Some(key_len);
        self.apps.insert(appid, app);
        self.appid = Some(appid);
        self.operation = Operation::GetKey;
        self.call = Some(EngineCall::GetKey(bytes, value));
        assert(app == App { value: None, key_len: Some(key_len), ..app0 });
        ReturnCode::Success
    }


    /// Hands the admitted engine call to the engine's owner.
    pub fn take_engine_call(&mut self) -> (r: Option<EngineCall>)
        requires
            old(self).wf(),
        ensures
            final(self).wf(),
            r == old(self).call,
            final(self).call is None,
            final(self).controller == old(self).controller,
            final(self).operation == old(self).operation,
            final(self).appid == old(self).appid,
            final(self).slots() == old(self).slots(),
    {
        self.call.take()
    }

    /// Starts up the store with the engine's answer to its initialisation
    /// call: the driver stays initialising while the engine waits on flash.
    pub fn initalise(&mut self, ret: Result<SuccessCode, ErrorCode>)
        requires
            old(self).wf(),
            old(self).operation == Operation::Idle,
            old(self).call is None,
        ensures
            final(self).wf(),
            final(self).slots() == old(self).slots(),
            final(self).call is None,
            final(self).appid is None,
            final(self).operation == (if is_not_ready(ret) {
                Operation::Init
            } else {
                Operation::Idle
            }),
            final(self).controller.data_buffer == old(self).controller.data_buffer,
            final(self).controller.request == old(self).controller.request,
            final(self).controller.region_offset == old(self).controller.region_offset,
            final(self).controller.hw_failed == old(self).controller.hw_failed,
            final(self).controller.state == pending_of(ret, old(self).controller.state),
    {
        self.operation = Operation::Init;
        self.update_state(ret);
    }

    /// The engine's answer after it was called or resumed. A "not ready"
    /// keeps the operation in flight; any other answer retires it, puts the
    /// value buffer the engine returned back in the owner's slot, and yields the
    /// owner's callback, which is then to be scheduled once.
    pub fn engine_result(&mut self, ret: Result<SuccessCode, ErrorCode>, value: Option<Vec<u8>>) -> (r: Option<usize>)
        requires
            old(self).wf(),
            old(self).call is None,
        ensures
            final(self).wf(),
            final(self).call is None,
            final(self).controller.data_buffer == old(self).controller.data_buffer,
            final(self).controller.request == old(self).controller.request,
            final(self).controller.region_offset == old(self).controller.region_offset,
            final(self).controller.hw_failed == old(self).controller.hw_failed,
            final(self).controller.state == pending_of(ret, old(self).controller.state),
            final(self).operation == op_after(old(self).operation, ret),
            !delivers(old(self).operation, ret) ==> r is None,
            is_not_ready(ret) ==> {
                &&& r is None
                &&& final(self).operation == old(self).operation
                &&& final(self).appid == old(self).appid
                &&& final(self).slots() == old(self).slots()
            },
            is_terminal(ret) ==> {
                &&& final(self).operation == Operation::Idle
                &&& final(self).appid is None
                &&& final(self).controller.state == State::Idle
            },
            is_terminal(ret) && old(self).operation != Operation::GetKey ==> {
                &&& r is None
                &&& final(self).slots() == old(self).slots()
            },
            is_terminal(ret) && old(self).operation == Operation::GetKey ==> {
                let owner = old(self).appid->0;
                let app = slot(old(self).slots(), owner);
                &&& r == app.callback
                &&& final(self).slots() == old(self).slots().insert(
                    owner,
                    App { value: if value is Some { value } else { app.value }, ..app },
                )
            },
    {
        let operation = self.operation;
        let owner = self.appid;
        self.update_state(ret);
        if self.operation != Operation::Idle || operation != Operation::GetKey {
            return None;
        }
        let id = owner.unwrap();
        let mut app = self.take_slot(id);
        if value.is_some() {
            app.value = value;
        }
        let callback = app.callback;
        self.apps.insert(id, app);
        callback
    }

    /// The device finished a page read and hands the page back. Returns
    /// whether the engine is to be resumed: it is, while an operation is in
    /// flight. A read that nothing waits for is dropped.
    pub fn read_complete(&mut self, page: Vec<u8>, failed: bool) -> (r: bool)
        requires
            old(self).wf(),
            old(self).controller.holder() == crate::flash_ctrl::Holder::Device,
        ensures
            final(self).wf(),
            final(self).controller.ready(),
            final(self).controller.data_buffer == Some(page),
            final(self).controller.hw_failed == failed,
            final(self).operation == old(self).operation,
            final(self).appid == old(self).appid,
            final(self).call == old(self).call,
            final(self).slots() == old(self).slots(),
            r == (old(self).operation != Operation::Idle),
            r ==> final(self).controller.state == old(self).controller.state,
            !r ==> final(self).controller.state == State::Idle,
    {
        self.controller.page_returned(page, failed);
        if self.operation == Operation::Idle {
            self.controller.clear_state();
            return false;
        }
        true
    }

    /// The device finished a page write and hands the page back. A write is
    /// the engine's last step: the operation in flight ends with it.
    pub fn write_complete(&mut self, page: Vec<u8>, failed: bool) -> (r: Option<usize>)
        requires
            old(self).wf(),
            old(self).call is None,
            old(self).controller.holder() == crate::flash_ctrl::Holder::Device,
        ensures
            final(self).wf(),
            final(self).controller.ready(),
            final(self).controller.data_buffer == Some(page),
            final(self).controller.state == State::Idle,
            final(self).controller.hw_failed == failed,
            final(self).operation == Operation::Idle,
            final(self).appid is None,
            final(self).call is None,
            old(self).operation != Operation::GetKey ==> {
                &&& r is None
                &&& final(self).slots() == old(self).slots()
            },
            old(self).operation == Operation::GetKey ==> {
                let owner = old(self).appid->0;
                &&& r == slot(old(self).slots(), owner).callback
                &&& final(self).slots() == old(self).slots().insert(owner, slot(old(self).slots(), owner))
            },
    {
        self.controller.page_returned(page, failed);
        self.engine_result(Ok(SuccessCode::Written), None)
    }

    /// The device finished a page erase. Returns whether the engine is to be
    /// resumed: it is, while an operation is in flight.
    pub fn erase_complete(&mut self, failed: bool) -> (r: bool)
        requires
            old(self).wf(),
        ensures
            final(self).wf(),
            final(self).controller.data_buffer == old(self).controller.data_buffer,
            final(self).controller.request == old(self).controller.request,
            final(self).controller.hw_failed == failed,
            final(self).operation == old(self).operation,
            final(self).appid == old(self).appid,
            final(self).call == old(self).call,
            final(self).slots() == old(self).slots(),
            r == (old(self).operation != Operation::Idle),
            r ==> final(self).controller.state == old(self).controller.state,
            !r ==> final(self).controller.state == State::Idle,
    {
        self.controller.hw_failed = failed;
        if self.operation == Operation::Idle {
            self.controller.clear_state();
            return false;
        }
        true
    }

} // impl KVStoreDriver

} // verus!

verus! {

/// While an operation is in flight every get-by-key request is turned away
/// as busy, whoever sends it, and a client lookup in flight has exactly one
/// recorded owner.
pub proof fn lemma_busy_while_in_flight(d: KVStoreDriver, appid: usize, key_len: usize)
    requires
        d.wf(),
        d.operation != Operation::Idle,
    ensures
        get_key_status(d.operation, slot(d.slots(), appid), key_len) == ReturnCode::Busy,
        d.operation == Operation::GetKey ==> d.appid is Some,
{
}

/// A lookup whose key length exceeds the client's key buffer is refused and
/// never reads past that buffer.
pub proof fn lemma_key_len_bounded(d: KVStoreDriver, appid: usize, key_len: usize)
    requires
        d.wf(),
        slot(d.slots(), appid).key is Some,
        key_len > slot(d.slots(), appid).key->0@.len(),
    ensures
        get_key_status(d.operation, slot(d.slots(), appid), key_len) != ReturnCode::Success,
{
}

} // verus!

verus! {

/// An accepted lookup, answered by the engine with any number of "not ready"
/// and then a final answer, ends with the driver idle and exactly one
/// callback delivered; answers that arrive while idle deliver none.
pub proof fn lemma_one_callback_per_request(rets: Seq<Result<SuccessCode, ErrorCode>>)
    requires
        rets.len() > 0,
        forall|i: int| 0 <= i < rets.len() - 1 ==> is_not_ready(#[trigger] rets[i]),
        is_terminal(rets[rets.len() - 1]),
    ensures
        run(Operation::GetKey, rets) == (Operation::Idle, 1nat),
    decreases rets.len(),
{
    if rets.len() == 1 {
        lemma_idle_delivers_nothing(rets.drop_first());
    } else {
        assert(is_not_ready(rets[0]));
        let rest = rets.drop_first();
        assert forall|i: int| 0 <= i < rest.len() - 1 implies is_not_ready(#[trigger] rest[i]) by {
            assert(rest[i] == rets[i + 1]);
        }
        assert(rest[rest.len() - 1] == rets[rets.len() - 1]);
        lemma_one_callback_per_request(rest);
    }
}

/// While no operation is in flight, no engine answer delivers a callback or
/// starts an operation.
pub proof fn lemma_idle_delivers_nothing(rets: Seq<Result<SuccessCode, ErrorCode>>)
    ensures
        run(Operation::Idle, rets) == (Operation::Idle, 0nat),
    decreases rets.len(),
{
    if rets.len() > 0 {
        lemma_idle_delivers_nothing(rets.drop_first());
    }
}

} // verus!
