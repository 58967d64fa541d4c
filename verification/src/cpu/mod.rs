pub mod bus;
pub mod cpu;
pub mod flags;
pub mod interpreter;
pub mod model;
pub mod opcodes;
