//! The one setting the removal pipeline reads from configuration.
use vstd::prelude::*;

verus! {

#[derive(Debug, Clone, Copy, PartialEq, Eq, Structural)]
pub struct Settings {
    /// Compare contents with the same-named trash entry before trashing.
    pub check_sha256: Option<bool>,
    pub new_check_sha256: bool,
}

#[derive(Debug, Clone, Copy, PartialEq, Eq, Structural)]
pub struct Config {
    pub settings: Settings,
}

impl Settings {
    /// Whether content comparison is on; an absent setting means off.
    pub fn verify_hash(&self) -> (r: bool)
        ensures
            r == (self.check_sha256 == Some(true)),
    {
        match self.check_sha256 {
            Some(b) => b,
            None => false,
        }
    }
}

impl Config {
    /// The configuration used when none is found: comparison off.
    pub fn fallback() -> (r: Config)
        ensures
            r.settings.check_sha256 == Some(false),
            !r.settings.new_check_sha256,
    {
        Config { settings: Settings { check_sha256: Some(false), new_check_sha256: false } }
    }
}

} // verus!
