pub mod command;
pub mod error;
pub mod protocol;
pub mod session;

pub use self::command::{FrontEnd, FrontEndError, MalformedCommandError};
pub use self::error::DebuggerError as Error;
