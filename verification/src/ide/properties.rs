//! The one setting that is read from an `idea.properties` file: where the
//! product keeps its configuration.

use vstd::prelude::*;
use crate::environment::home_directory;
use crate::text::{replace_all, replaced};

verus! {

/// The settings of one properties file.
#[derive(Debug)]
pub struct IDEProperties {
    /// The value of `idea.config.path`, placeholders substituted.
    pub config_path: Option<String>,
}

/// Why a property could not be evaluated.
#[derive(Debug, Clone, Copy, PartialEq, Eq, Structural)]
pub enum PropertyError {
    /// The value needs the home directory and the environment names none.
    NoHomeDirectory,
}

/// The placeholder that stands for the user's home directory.
pub open spec fn home_placeholder() -> Seq<char> {
    "${user.home}"@
}

/// A property's value with the home directory put in for every placeholder.
/// An absent property stays absent; a present one needs a home directory.
pub open spec fn evaluated(value: Option<Seq<char>>, home: Option<Seq<char>>) -> Result<
    Option<Seq<char>>,
    PropertyError,
> {
    match value {
        None => Ok(None),
        Some(text) => match home {
            None => Err(PropertyError::NoHomeDirectory),
            Some(dir) => Ok(Some(replaced(text, home_placeholder(), dir))),
        },
    }
}

/// Evaluates a property's value against the given home directory.
pub fn evaluate_property_in(value: Option<&str>, home: Option<&str>) -> (result: Result<
    Option<String>,
    PropertyError,
>)
    ensures
        match result {
            Ok(Some(text)) => evaluated(
                match value {
                    Some(v) => Some(v@),
                    None => None,
                },
                match home {
                    Some(h) => Some(h@),
                    None => None,
                },
            ) == Ok::<Option<Seq<char>>, PropertyError>(Some(text@)),
            Ok(None) => value is None,
            Err(e) => value is Some && home is None && e == PropertyError::NoHomeDirectory,
        },
{
    match value {
        None => Ok(None),
        Some(text) => match home {
            None => Err(PropertyError::NoHomeDirectory),
            Some(dir) => Ok(Some(replace_all(text, "${user.home}", dir))),
        },
    }
}

/// Evaluates a property's value against the home directory that the
/// environment names. An absent property stays absent whatever the
/// environment; a present one is evaluated as `evaluate_property_in` does
/// with the home directory that was found.
pub fn evaluate_property(value: Option<&str>) -> (result: Result<Option<String>, PropertyError>)
    ensures
        value is None ==> result == Ok::<Option<String>, PropertyError>(None),
        value matches Some(text) ==> match result {
            Ok(Some(path)) => exists|home: Seq<char>|
                path@ == replaced(text@, home_placeholder(), home),
            Ok(None) => false,
            Err(e) => e == PropertyError::NoHomeDirectory,
        },
{
    let home = home_directory();
    match home {
        Some(dir) => evaluate_property_in(value, Some(dir.as_str())),
        None => evaluate_property_in(value, None),
    }
}

impl IDEProperties {
    /// The settings of a properties file whose `idea.config.path` has the
    /// given value, evaluated against the given home directory. A file whose
    /// value cannot be evaluated gives no settings.
    pub fn from_config_path_in(value: Option<&str>, home: Option<&str>) -> (properties: Option<Self>)
        ensures
            match properties {
                Some(p) => match p.config_path {
                    Some(path) => value is Some && home is Some && path@ == replaced(
                        value->0@,
                        home_placeholder(),
                        home->0@,
                    ),
                    None => value is None,
                },
                None => value is Some && home is None,
            },
    {
        match evaluate_property_in(value, home) {
            Ok(config_path) => Some(IDEProperties { config_path }),
            Err(_) => None,
        }
    }

    /// The settings of a properties file whose `idea.config.path` has the
    /// given value, evaluated against the home directory that the environment
    /// names. A file that does not set the path gives settings without one,
    /// whatever the environment.
    pub fn from_config_path(value: Option<&str>) -> (properties: Option<Self>)
        ensures
            value is None ==> properties is Some && properties->0.config_path is None,
            value is Some ==> match properties {
                Some(p) => p.config_path is Some && exists|home: Seq<char>|
                    p.config_path->0@ == replaced(value->0@, home_placeholder(), home),
                None => true,
            },
    {
        match evaluate_property(value) {
            Ok(config_path) => Some(IDEProperties { config_path }),
            Err(_) => None,
        }
    }
}

} // verus!
