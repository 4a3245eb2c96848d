//! A live trading bot: the state that it keeps of its assets, its rules about orders, and the course
//! of its waits. What talks to the connectors drives it from outside.
pub mod bot;
pub mod builder;
pub mod channel;
pub mod clock;
pub mod depth;
pub mod effects;
pub mod errors;
pub mod laws;
pub mod model;
pub mod run;
pub mod types;
