//! The plugin that brings the greeter into an application.

use crate::countdown::Countdown;
use crate::greet_timer::GreetTimer;
use vstd::prelude::*;

verus! {

/// The greeter as a unit that an application installs.
pub struct HelloPlugin;

impl HelloPlugin {
    /// The state that the plugin puts into the application when it is
    /// installed: a timer on which no frame has been counted yet.
    pub fn build(&self) -> (timer: GreetTimer)
        ensures
            timer@ == Countdown::fresh(),
    {
        GreetTimer::new()
    }
}

} // verus!
