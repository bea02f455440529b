pub mod map;
pub mod region;

pub use self::map::{AsMemoryRegion, AsMemoryRegionMut, MemMap, MemMapView, MemoryMap, RawAccessToHardwareError};
pub use self::region::{Region, RegionMut};
