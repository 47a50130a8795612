//! Sessions of users: the session entities, the index that finds a session by
//! its key, and the decisions of the session manager.
pub mod manager;
pub mod session;
pub mod session_index;

pub use self::manager::SessionManager;
pub use self::session::{Session, SessionData};
pub use self::session_index::{SessionIndex, SessionIndexData};
