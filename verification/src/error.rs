//! The error type of the library, which interfaces with the error types of the modules.
use vstd::prelude::*;
#[allow(unused_imports)]
use vstd::string::*;
use crate::text::cat;
use crate::{misc, primitives, repository, ssh};

verus! {

/// The errors of the library. Those that come from outside are held by their text.
#[derive(Debug)]
pub enum Error {
    Generic(String),
    Io(String),
    Yaml(String),
    Regex(String),
    YamlScanError(String),
    Ssh(ssh::Error),
    Git(String),
    Repository(repository::Error),
    Misc(misc::Error),
    Commons(primitives::Error),
}

impl Error {
    /// The text of the error.
    pub fn message(&self) -> (res: String)
        ensures
            res@ == match self {
                Error::Generic(s) => "Error happened:\n"@ + s@,
                Error::Io(s) => "Io related error happened:\n"@ + s@,
                Error::Yaml(s) => "Yaml related error happened:\n"@ + s@,
                Error::Regex(s) => "Regex related error happened:\n"@ + s@,
                Error::YamlScanError(s) => "Yaml related error happened:\n"@ + s@,
                Error::Ssh(e) => "Ssh related error happened:\n"@ + e.text(),
                Error::Git(s) => "Git related error happened:\n"@ + s@,
                Error::Repository(e) => "Repository related error happened:\n"@ + e.text(),
                Error::Misc(e) => "Misc related error happened:\n"@ + e.text(),
                Error::Commons(e) => "Primitives related error occurred:\n"@ + e.text(),
            },
    {
        match self {
            Error::Generic(s) => cat("Error happened:\n", s.as_str()),
            Error::Io(s) => cat("Io related error happened:\n", s.as_str()),
            Error::Yaml(s) => cat("Yaml related error happened:\n", s.as_str()),
            Error::Regex(s) => cat("Regex related error happened:\n", s.as_str()),
            Error::YamlScanError(s) => cat("Yaml related error happened:\n", s.as_str()),
            Error::Ssh(e) => cat("Ssh related error happened:\n", e.message().as_str()),
            Error::Git(s) => cat("Git related error happened:\n", s.as_str()),
            Error::Repository(e) => cat(
                "Repository related error happened:\n",
                e.message().as_str(),
            ),
            Error::Misc(e) => cat("Misc related error happened:\n", e.message().as_str()),
            Error::Commons(e) => cat("Primitives related error occurred:\n", e.message().as_str()),
        }
    }
}

impl From<ssh::Error> for Error {
    fn from(err: ssh::Error) -> (res: Error) {
        Error::Ssh(err)
    }
}

impl vstd::std_specs::convert::FromSpecImpl<ssh::Error> for Error {
    open spec fn obeys_from_spec() -> bool {
        true
    }

    open spec fn from_spec(err: ssh::Error) -> Error {
        Error::Ssh(err)
    }
}

impl From<repository::Error> for Error {
    fn from(err: repository::Error) -> (res: Error) {
        Error::Repository(err)
    }
}

impl vstd::std_specs::convert::FromSpecImpl<repository::Error> for Error {
    open spec fn obeys_from_spec() -> bool {
        true
    }

    open spec fn from_spec(err: repository::Error) -> Error {
        Error::Repository(err)
    }
}

impl From<misc::Error> for Error {
    fn from(err: misc::Error) -> (res: Error) {
        Error::Misc(err)
    }
}

impl vstd::std_specs::convert::FromSpecImpl<misc::Error> for Error {
    open spec fn obeys_from_spec() -> bool {
        true
    }

    open spec fn from_spec(err: misc::Error) -> Error {
        Error::Misc(err)
    }
}

impl From<primitives::Error> for Error {
    fn from(err: primitives::Error) -> (res: Error) {
        Error::Commons(err)
    }
}

impl vstd::std_specs::convert::FromSpecImpl<primitives::Error> for Error {
    open spec fn obeys_from_spec() -> bool {
        true
    }

    open spec fn from_spec(err: primitives::Error) -> Error {
        Error::Commons(err)
    }
}

/// What an error says: what failed, and the reason that it holds.
pub proof fn errors_say_what_failed(error: Error, said: String)
    requires
        call_ensures(Error::message, (&error,), said),
    ensures
        error is Generic ==> said@ == "Error happened:\n"@ + error->Generic_0@,
        error is Io ==> said@ == "Io related error happened:\n"@ + error->Io_0@,
        error is Yaml ==> said@ == "Yaml related error happened:\n"@ + error->Yaml_0@,
        error is Regex ==> said@ == "Regex related error happened:\n"@ + error->Regex_0@,
        error is YamlScanError ==> said@ == "Yaml related error happened:\n"@ + error->YamlScanError_0@,
        error is Ssh ==> said@ == "Ssh related error happened:\n"@ + error->Ssh_0.text(),
        error is Git ==> said@ == "Git related error happened:\n"@ + error->Git_0@,
        error is Repository ==> said@ == "Repository related error happened:\n"@ + error->Repository_0.text(),
        error is Misc ==> said@ == "Misc related error happened:\n"@ + error->Misc_0.text(),
        error is Commons ==> said@ == "Primitives related error occurred:\n"@ + error->Commons_0.text(),
{
}

} // verus!
