use vstd::prelude::*;

pub mod session;
pub mod session_state;
pub mod session_store;
pub mod storage;

pub use session::{Session, SessionError, SessionStatus};
pub use session_state::SessionState;
pub use session_store::{SessionKey, SessionStore, StoreAction};
pub use storage::{StorageError, StorageGetError, StorageInsertError, StorageRemoveError};

verus! {

} // verus!
