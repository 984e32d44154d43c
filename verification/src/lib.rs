//! A greeter for a frame-driven application: it populates the world with a
//! few people, says hello on every frame, and welcomes everybody exactly once,
//! as soon as two seconds of frame time have passed.
//!
//! The countdown is kept by a `bevy::time::Timer`. Everything the library
//! decides around it is verified; what is taken on trust about the timer is
//! collected in [`clock`].

pub mod clock;
pub mod countdown;
pub mod greet_timer;
pub mod plugin;
pub mod systems;

pub use countdown::{Countdown, GREET_DELAY_NANOS};
pub use greet_timer::GreetTimer;
pub use plugin::HelloPlugin;
pub use systems::{add_people, greet_people, hello_world, welcome};
