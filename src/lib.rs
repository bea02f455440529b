pub mod cpu;
pub mod memory;
pub mod via;
pub mod timer;
pub mod video;
pub mod emulator;
pub mod debugger;
pub mod pacing;

pub use self::via as interface_adapter;
