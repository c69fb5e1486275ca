//! Output side of a falling-block game adapter: the engine's board, upcoming
//! pieces and held piece repacked into fixed-size byte buffers that a host
//! reads in place, and the ordered input vector of one step.

pub mod cell;
pub mod game;
pub mod laws;
