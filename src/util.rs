pub mod iterator;
pub mod region;

pub use iterator::ResetIterator;
pub use region::Region;
