//! The ways in which resolving a configuration can fail.

use vstd::prelude::*;
use crate::text::concat;

verus! {

/// A failure that resolution reports to its caller.
#[derive(Debug, PartialEq, Eq)]
pub enum ConfigError {
    /// The table holds, under the named key, a value of another type than the
    /// setting has.
    WrongType(String),
    /// The given text names no operating system.
    InvalidOperatingSystem(String),
}

/// A failure over plain sequences of characters.
pub enum ConfigErrorView {
    WrongType(Seq<char>),
    InvalidOperatingSystem(Seq<char>),
}

impl ConfigErrorView {
    /// The sentence that describes the failure.
    pub open spec fn message(self) -> Seq<char> {
        match self {
            ConfigErrorView::WrongType(key) => "Invalid value type for configuration key: "@
                + key,
            ConfigErrorView::InvalidOperatingSystem(name) => "Invalid operating system: "@ + name,
        }
    }
}

impl View for ConfigError {
    type V = ConfigErrorView;

    open spec fn view(&self) -> ConfigErrorView {
        match self {
            ConfigError::WrongType(key) => ConfigErrorView::WrongType(key@),
            ConfigError::InvalidOperatingSystem(name) => ConfigErrorView::InvalidOperatingSystem(
                name@,
            ),
        }
    }
}

/// A result over plain values.
pub open spec fn plain_result<T>(r: Result<T, ConfigError>) -> Result<T, ConfigErrorView> {
    match r {
        Ok(v) => Ok(v),
        Err(e) => Err(e@),
    }
}

impl ConfigError {
    /// The sentence that describes the failure.
    pub fn message(&self) -> (text: String)
        ensures
            text@ == self@.message(),
    {
        match self {
            ConfigError::WrongType(key) => concat(
                "Invalid value type for configuration key: ",
                key.as_str(),
            ),
            ConfigError::InvalidOperatingSystem(name) => concat(
                "Invalid operating system: ",
                name.as_str(),
            ),
        }
    }
}

} // verus!
