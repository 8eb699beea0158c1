pub mod bytes;
pub mod checksum;
pub mod laws;
pub mod query;
pub mod storage;
