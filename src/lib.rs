//! A key-value store over page-addressed flash: an adapter that turns the
//! engine's synchronous-shaped flash calls into asynchronous device requests,
//! and a driver that admits one operation at a time, resumes the engine on
//! each flash completion, and hands results back to the requesting client.

pub mod driver;
pub mod engine;
pub mod flash_ctrl;

pub use driver::{App, EngineCall, KVStoreDriver, Operation, ReturnCode};
pub use flash_ctrl::{FlashRequest, Holder, State, TicKVFlashCtrl};
