use vstd::prelude::*;

verus! {

/// The user's settings, kept between runs.
#[derive(Clone, Copy, Debug, PartialEq, Eq, Structural)]
pub struct Config {
    /// Whether the onboarding screens are still to be shown.
    pub first_time_use: bool,
}

impl Config {
    /// The settings of a user who has not run the application before.
    pub fn first_run() -> (r: Config)
        ensures
            r.first_time_use,
    {
        Config { first_time_use: true }
    }
}

} // verus!
