//! Readiness checks for a train and its cars: engine and fuel gates on the
//! train, freight and contraband gates on each car, and a dispatch pass that
//! reports which cars are ready to leave.

pub mod text;
pub mod engine;
pub mod car;
pub mod train;
