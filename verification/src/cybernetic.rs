//! The supervisory loop around the engine: a bounded feedback bus between
//! sensors and effectors. The bus is lossy by design: once a queue has
//! reached its bound, the oldest entry gives way to the newest.

pub mod clock;
pub mod payload;
pub mod feedback_bus;
pub mod sensor_adapter;
pub mod effector_adapter;
pub mod supervisor;
