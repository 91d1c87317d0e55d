pub mod bytes;
pub mod chain;
pub mod contract;
pub mod hashing;
pub mod table;
pub mod types;
