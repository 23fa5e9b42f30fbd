pub mod clock;
pub mod timer;
