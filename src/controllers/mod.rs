pub mod interface;
pub mod motor;
pub mod position;
pub mod scheduler;
