//! The errors of the renderer.

use vstd::prelude::*;
use vstd::string::{StringExecFns, to_string_from_display_ensures};

verus! {

/// What can go wrong while a scene is rendered.
#[derive(Debug)]
pub enum RaytracerError {
    /// The scene holds no light: nothing can be rendered.
    NoLight,
    /// The object at this index of the scene reported a hit at a point at
    /// which it has no normal.
    NormalNotFound(usize),
    /// The description of the scene could not be read.
    ParsingError(String),
}

impl RaytracerError {
    /// The error as a line of text.
    pub fn message(&self) -> (line: String)
        ensures
            match *self {
                RaytracerError::NoLight => line@ == "the scene has no light"@,
                RaytracerError::NormalNotFound(index) => exists|number: String|
                    to_string_from_display_ensures::<usize>(&index, number) && line@
                        == "no normal at the hit of object "@ + number@,
                RaytracerError::ParsingError(text) => line@ == "the scene cannot be read: "@
                    + text@,
            },
    {
        match self {
            RaytracerError::NoLight => String::from_str("the scene has no light"),
            RaytracerError::NormalNotFound(index) => {
                let number = index.to_string();
                String::from_str("no normal at the hit of object ").concat(number.as_str())
            },
            RaytracerError::ParsingError(text) => String::from_str(
                "the scene cannot be read: ",
            ).concat(text.as_str()),
        }
    }
}

} // verus!
