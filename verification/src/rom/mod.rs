pub mod header;
pub mod rom;
