//! Window selection, capture cropping and the board-watching state machine of a
//! xiangqi screen listener.

pub mod board;
pub mod worker;
pub mod frame;
pub mod listen;
pub mod analysis;
