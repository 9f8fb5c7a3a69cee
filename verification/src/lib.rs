pub mod decoder;
pub mod hub;
pub mod locator;
pub mod monitor;
pub mod publish;
pub mod reading;
pub mod session;
mod time;
