//! What can go wrong, and how it is told.
use vstd::prelude::*;

verus! {

/// Why a configuration, a command or a job failed.
#[derive(Debug)]
pub enum Error {
    /// None of the default configuration files exists.
    NoConfigFile,
    /// The extension of the configuration file names no known format.
    UnsupportedFormat(String),
    /// A command without a single word.
    EmptyCommand,
    /// A value that had to be there was not.
    NoneValue,
    /// The work was cancelled.
    Cancelled,
    /// A failure reported from outside, by its text.
    Outside(String),
}

impl Error {
    /// The text of the error.
    pub open spec fn text(&self) -> Seq<char> {
        match self {
            Error::NoConfigFile => "No config file found"@,
            Error::UnsupportedFormat(ext) => "Unsupported file format: "@ + ext@,
            Error::EmptyCommand => "Command is empty"@,
            Error::NoneValue => "Option was None"@,
            Error::Cancelled => "Cancelled"@,
            Error::Outside(text) => text@,
        }
    }

    /// The text of the error.
    pub fn message(&self) -> (r: String)
        ensures
            r@ == self.text(),
    {
        match self {
            Error::NoConfigFile => "No config file found".to_owned(),
            Error::UnsupportedFormat(ext) => "Unsupported file format: ".to_owned().concat(
                ext.as_str(),
            ),
            Error::EmptyCommand => "Command is empty".to_owned(),
            Error::NoneValue => "Option was None".to_owned(),
            Error::Cancelled => "Cancelled".to_owned(),
            Error::Outside(text) => text.clone(),
        }
    }
}

/// Turns an absent value into an error.
pub trait OptionExt<T>: Sized {
    /// The value, or an error where there is none.
    fn some(self) -> (r: Result<T, Error>);
}

impl<T> OptionExt<T> for Option<T> {
    fn some(self) -> (r: Result<T, Error>)
        ensures
            r == match self {
                Some(value) => Ok::<T, Error>(value),
                None => Err(Error::NoneValue),
            },
    {
        match self {
            Some(value) => Ok(value),
            None => Err(Error::NoneValue),
        }
    }
}

/// What is told of an error: of one from outside its own text, of a format the extension that stands
/// for none, and of every other a text that tells it from the rest.
pub proof fn law_error_is_told(e: Error, r: String)
    requires
        call_ensures(Error::message, (&e,), r),
    ensures
        match e {
            Error::Outside(text) => r@ == text@,
            Error::UnsupportedFormat(ext) => r@ == "Unsupported file format: "@ + ext@,
            Error::NoConfigFile => r@ == "No config file found"@,
            Error::EmptyCommand => r@ == "Command is empty"@,
            Error::NoneValue => r@ == "Option was None"@,
            Error::Cancelled => r@ == "Cancelled"@,
        },
        r@ == e.text(),
{
}

/// A value that is there is handed on as it is, and one that is not is an error.
pub proof fn law_some_hands_on<T>(value: Option<T>, r: Result<T, Error>)
    requires
        call_ensures(<Option<T> as OptionExt<T>>::some, (value,), r),
    ensures
        r is Ok <==> value is Some,
        r matches Ok(handed) ==> value == Some(handed),
        r matches Err(e) ==> e == Error::NoneValue,
{
}

} // verus!
