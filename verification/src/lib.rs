pub mod codec;
pub mod device;
pub mod params;
