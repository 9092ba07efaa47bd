pub mod asynchronous;
pub mod atomic;
pub mod collective;
pub mod message;
pub mod rma;
pub mod tagged;
