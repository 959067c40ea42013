//! A fixed-size worker pool, modelled as a verified state machine, together
//! with the small text and arithmetic helpers of the services built on it.

pub mod adder;
pub mod aggregator;
pub mod basics;
pub mod coins;
pub mod enums;
pub mod generics;
pub mod guessing_game;
pub mod gui;
pub mod http;
pub mod inventory;
pub mod parser;
pub mod pool;
pub mod shapes;
pub mod smart_pointers;
pub mod text;
