//! Verified driver logic for LX-16A serial bus servos and the rover drive
//! train built on them.
pub mod packet;
pub mod byte_order;
pub mod port;
pub mod lx_16a;
pub mod drive;
pub mod rover;
