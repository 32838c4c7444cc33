pub mod clock;
pub mod export;
pub mod laws;
pub mod storage;
pub mod todo;
