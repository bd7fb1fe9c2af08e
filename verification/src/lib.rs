pub mod clock;
pub mod codec;
pub mod engine;
