pub mod coordinator;
pub mod digest;
pub mod ledger;
pub mod limits;
pub mod signature;
pub mod types;
