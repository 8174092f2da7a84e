pub mod memory_segments;
pub mod relocatable;
pub mod system;
