//! The device's registers and the configuration fields they hold.

pub mod bitfield;
pub mod inpmux;
pub mod interface;
pub mod mode0;
pub mod mode1;
pub mod mode2;
pub mod refmux;
pub mod register;
