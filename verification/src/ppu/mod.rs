pub mod addr;
pub mod control;
pub mod mask;
pub mod scroll;
pub mod status;
pub mod ppu;
