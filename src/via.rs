pub mod interrupts;
pub mod peripheral_port;
pub mod registers;
pub mod system;

pub use self::system::System;
