//! What stands around a rendering: where the pixels go, who is told of the
//! progress, and the errors of the whole.

use vstd::prelude::*;
use vstd::std_specs::convert::FromSpecImpl;
use vstd::string::StringExecFns;
use crate::renderer::Pixel;

verus! {

/// Is told of the progress of a rendering.
pub trait ProgressionMonitor {
    /// One more pixel is out.
    fn update(&self);

    /// The rendering is over.
    fn clean(&self);
}

/// A monitor that shows nothing.
#[derive(Clone, Copy, Debug)]
pub struct NoMonitor;

impl ProgressionMonitor for NoMonitor {
    fn update(&self) {
    }

    fn clean(&self) {
    }
}

/// Takes the pixels of a rendering.
pub trait DrawCanvas {
    /// Draws one pixel, or says why it could not.
    fn draw(&mut self, pixel: Pixel) -> Result<(), String>;
}

/// A canvas that draws nothing.
#[derive(Clone, Copy, Debug)]
pub struct NoCanvas;

impl DrawCanvas for NoCanvas {
    fn draw(&mut self, pixel: Pixel) -> (r: Result<(), String>)
        ensures
            r is Ok,
    {
        Ok(())
    }
}

/// What can stop the program.
#[derive(Debug)]
pub enum AppError {
    SdlError(String),
    RaytracingError(String),
    LoggerError(String),
    MiscError(String),
}

impl AppError {
    /// What stands before the text of an error.
    pub open spec fn prefix(&self) -> Seq<char> {
        match self {
            AppError::SdlError(_) => "SDL: "@,
            AppError::RaytracingError(_) => "RayTracer: "@,
            AppError::LoggerError(_) => "Logger: "@,
            AppError::MiscError(_) => "Other: "@,
        }
    }

    /// The text that the error was made with.
    pub open spec fn detail(&self) -> Seq<char> {
        match self {
            AppError::SdlError(text) => text@,
            AppError::RaytracingError(text) => text@,
            AppError::LoggerError(text) => text@,
            AppError::MiscError(text) => text@,
        }
    }

    /// The error as a line of text: where it comes from, then what it says.
    pub fn message(&self) -> (line: String)
        ensures
            line@ == self.prefix() + self.detail(),
    {
        match self {
            AppError::SdlError(text) => String::from_str("SDL: ").concat(text.as_str()),
            AppError::RaytracingError(text) => String::from_str("RayTracer: ").concat(
                text.as_str(),
            ),
            AppError::LoggerError(text) => String::from_str("Logger: ").concat(text.as_str()),
            AppError::MiscError(text) => String::from_str("Other: ").concat(text.as_str()),
        }
    }

}

impl From<String> for AppError {
    /// The error of a rendering that failed with the given text.
    fn from(err: String) -> (error: AppError) {
        AppError::RaytracingError(err)
    }
}

impl FromSpecImpl<String> for AppError {
    open spec fn obeys_from_spec() -> bool {
        true
    }

    open spec fn from_spec(err: String) -> AppError {
        AppError::RaytracingError(err)
    }
}

} // verus!
