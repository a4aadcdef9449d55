//! The failures the launcher reports.

use crate::text::{join, joined, views};
use vstd::prelude::*;
use vstd::string::*;

verus! {

/// Why an invocation was abandoned.
#[derive(Debug, PartialEq, Eq)]
pub enum Error {
    /// No marker file was found in the working directory or any ancestor.
    ConfigNotFound,
    /// The configuration document is malformed; the text says how.
    ConfigParse(String),
    /// The command line is malformed; the text says how.
    InvalidArguments(String),
    /// The named target is not declared by the configuration.
    UnknownTarget(String),
    /// No target was named and the configuration has no default target.
    NoTargetSpecified,
    /// No binary was named and the configuration has no default binary.
    NoBinarySpecified,
    /// The binary to run does not exist; the path is given by its components.
    BinaryNotFound(Vec<String>),
    /// Creating a directory, entering it or running a process failed.
    Io(String),
    /// The process image could not be replaced.
    ExternalProcessFailure,
}

/// The mathematical content of an [`Error`].
pub ghost enum Failure {
    ConfigNotFound,
    ConfigParse(Seq<char>),
    InvalidArguments(Seq<char>),
    UnknownTarget(Seq<char>),
    NoTargetSpecified,
    NoBinarySpecified,
    BinaryNotFound(Seq<Seq<char>>),
    Io(Seq<char>),
    ExternalProcessFailure,
}

impl View for Error {
    type V = Failure;

    open spec fn view(&self) -> Failure {
        match self {
            Error::ConfigNotFound => Failure::ConfigNotFound,
            Error::ConfigParse(text) => Failure::ConfigParse(text@),
            Error::InvalidArguments(text) => Failure::InvalidArguments(text@),
            Error::UnknownTarget(name) => Failure::UnknownTarget(name@),
            Error::NoTargetSpecified => Failure::NoTargetSpecified,
            Error::NoBinarySpecified => Failure::NoBinarySpecified,
            Error::BinaryNotFound(path) => Failure::BinaryNotFound(views(path@)),
            Error::Io(text) => Failure::Io(text@),
            Error::ExternalProcessFailure => Failure::ExternalProcessFailure,
        }
    }
}

/// The line shown to the user for a failure.
pub open spec fn message_of(failure: Failure) -> Seq<char> {
    match failure {
        Failure::ConfigNotFound => "No cmakr.toml"@,
        Failure::ConfigParse(text) => text,
        Failure::InvalidArguments(text) => text,
        Failure::UnknownTarget(name) => "No target named "@ + name + "."@,
        Failure::NoTargetSpecified => "No target specified and no default-target in `cmakr.toml`."@,
        Failure::NoBinarySpecified => "No binary specified and no default-bin in `cmakr.toml`"@,
        Failure::BinaryNotFound(path) => "\""@ + joined(path, "/"@) + "\" doesn't exist"@,
        Failure::Io(text) => text,
        Failure::ExternalProcessFailure => "The process image could not be replaced"@,
    }
}

impl Error {
    /// The line shown to the user for this failure.
    pub fn message(&self) -> (text: String)
        ensures
            text@ == message_of(self@),
    {
        match self {
            Error::ConfigNotFound => "No cmakr.toml".to_owned(),
            Error::ConfigParse(text) => text.clone(),
            Error::InvalidArguments(text) => text.clone(),
            Error::UnknownTarget(name) => {
                let mut text = "No target named ".to_owned();
                text.append(name.as_str());
                text.append(".");
                text
            },
            Error::NoTargetSpecified => {
                "No target specified and no default-target in `cmakr.toml`.".to_owned()
            },
            Error::NoBinarySpecified => {
                "No binary specified and no default-bin in `cmakr.toml`".to_owned()
            },
            Error::BinaryNotFound(path) => {
                let mut text = "\"".to_owned();
                let shown = join(path, "/");
                text.append(shown.as_str());
                text.append("\" doesn't exist");
                text
            },
            Error::Io(text) => text.clone(),
            Error::ExternalProcessFailure => "The process image could not be replaced".to_owned(),
        }
    }
}

/// How the launcher's process ends.
#[derive(Debug, PartialEq, Eq)]
pub enum Ending {
    /// With success and without a word.
    Success,
    /// With a failure status, after this line has gone to the error stream.
    Failure(String),
    /// Abnormally and at once: the state of the process cannot be relied on.
    Abort,
}

/// Decides how the process ends after an invocation: a process image that
/// could not be replaced ends it abnormally, every other failure with the
/// failure's message.
pub fn ending(outcome: &Result<(), Error>) -> (end: Ending)
    ensures
        match *outcome {
            Ok(_) => end == Ending::Success,
            Err(error) => if error@ == Failure::ExternalProcessFailure {
                end == Ending::Abort
            } else {
                end matches Ending::Failure(line) && line@ == message_of(error@)
            },
        },
{
    match outcome {
        Ok(_) => Ending::Success,
        Err(Error::ExternalProcessFailure) => Ending::Abort,
        Err(error) => Ending::Failure(error.message()),
    }
}

} // verus!
