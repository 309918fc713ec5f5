//! The error every operation of the crate reports.

use std::collections::HashMap;
use serde_json::Error as JsonError;
use std::io::Error as IoError;
use vstd::prelude::*;
use crate::text::{opt_chars, opt_str_eq, str_eq};
use crate::types::meta_entries;

verus! {

/// Structured context an error may carry.
pub type Extension = Option<HashMap<String, String>>;

/// What an error says, as plain values.
pub struct ErrorView {
    /// The fixed classification code, if the error has one.
    pub code: Option<Seq<char>>,
    /// The human-readable message.
    pub message: Seq<char>,
    /// The entries of the structured context, if there is one.
    pub extension: Option<Map<Seq<char>, Seq<char>>>,
}

/// Why a JSON document was refused.
#[derive(Clone, Copy, Debug, PartialEq, Eq, Structural)]
pub enum JsonFailure {
    /// Bytes could not be read from or written to a stream.
    Io,
    /// The input is not syntactically valid JSON.
    Syntax,
    /// The input is valid JSON of the wrong shape.
    Data,
    /// The input ended too early.
    Eof,
}

/// An application error: a message, an optional code (`"INTERNAL"` for
/// failures of the system, `"USERINPUT"` for rejected input) and optional
/// structured context.
#[derive(Debug)]
pub struct Error {
    code: Option<&'static str>,
    message: &'static str,
    extension: Extension,
}

/// The entries of an optional piece of structured context.
pub open spec fn extension_entries(extension: Extension) -> Option<Map<Seq<char>, Seq<char>>> {
    match extension {
        Some(m) => Some(meta_entries(m)),
        None => None,
    }
}

/// `serde_json::Error`, the error of the `serde_json` crate. Nothing is
/// known of what it holds but its category.
#[verifier::external_type_specification]
#[verifier::external_body]
pub struct ExJsonError(JsonError);

/// `std::io::Error`. Nothing is known of what it holds.
#[verifier::external_type_specification]
#[verifier::external_body]
pub struct ExIoError(IoError);

/// The category `serde_json` files an error of its own under.
pub uninterp spec fn json_failure_of(err: JsonError) -> JsonFailure;

/// `classify` of `serde_json`'s error type: the category of the error,
/// which is one of I/O, syntax, data and premature end of input. The call
/// reads the error and nothing else, so the same error always has the same
/// category.
#[verifier::external_body]
fn classify(err: &JsonError) -> (failure: JsonFailure)
    ensures
        failure == json_failure_of(*err),
{
    match err.classify() {
        serde_json::error::Category::Io => JsonFailure::Io,
        serde_json::error::Category::Syntax => JsonFailure::Syntax,
        serde_json::error::Category::Data => JsonFailure::Data,
        serde_json::error::Category::Eof => JsonFailure::Eof,
    }
}

/// `HashMap::eq` of std on two maps from `String` to `String`: they are equal
/// exactly when they hold the same keys with the same values.
#[verifier::external_body]
fn same_entries(a: &HashMap<String, String>, b: &HashMap<String, String>) -> (same: bool)
    ensures
        same == (meta_entries(*a) == meta_entries(*b)),
{
    a == b
}

impl View for Error {
    type V = ErrorView;

    closed spec fn view(&self) -> ErrorView {
        ErrorView {
            code: opt_chars(self.code),
            message: self.message@,
            extension: extension_entries(self.extension),
        }
    }
}

impl Error {
    /// The error with exactly these parts.
    pub closed spec fn spec_new(
        message: &'static str,
        code: Option<&'static str>,
        extension: Extension,
    ) -> Error {
        Error { code, message, extension }
    }

    /// What `spec_new` builds says what it was given.
    pub broadcast proof fn spec_new_view(
        message: &'static str,
        code: Option<&'static str>,
        extension: Extension,
    )
        ensures
            (#[trigger] Error::spec_new(message, code, extension))@ == (ErrorView {
                code: opt_chars(code),
                message: message@,
                extension: extension_entries(extension),
            }),
    {
    }

    /// The error a JSON failure of the given category is reported as.
    pub open spec fn for_json_failure(failure: JsonFailure) -> Error {
        match failure {
            JsonFailure::Syntax => Error::spec_new("Serde: invalid json", Some("INTERNAL"), None),
            _ => Error::spec_new("Serde: fail", Some("INTERNAL"), None),
        }
    }

    /// The error any failure of the storage medium is reported as.
    pub open spec fn for_io_failure() -> Error {
        Error::spec_new("IO Isssues", Some("INTERNAL"), None)
    }

    pub fn new(message: &'static str, code: Option<&'static str>, extension: Extension) -> (e:
        Error)
        ensures
            e == Error::spec_new(message, code, extension),
            e@.message == message@,
            e@.code == opt_chars(code),
            e@.extension == extension_entries(extension),
    {
        Error { message, code, extension }
    }

    /// The classification code, or the empty string where the error has none.
    pub fn code(&self) -> (c: &'static str)
        ensures
            c@ == (match self@.code {
                Some(code) => code,
                None => Seq::<char>::empty(),
            }),
    {
        match self.code {
            Some(code) => code,
            None => {
                proof {
                    reveal_strlit("");
                }
                ""
            },
        }
    }

    pub fn message(&self) -> (m: &'static str)
        ensures
            m@ == self@.message,
    {
        self.message
    }

    /// Takes the error apart: its message, its code and its context.
    pub fn into_parts(self) -> (parts: (&'static str, Option<&'static str>, Extension))
        ensures
            self == Error::spec_new(parts.0, parts.1, parts.2),
    {
        (self.message, self.code, self.extension)
    }

    /// The error that reports a JSON failure: a syntax error as
    /// `"Serde: invalid json"`, every other category as `"Serde: fail"`, both
    /// under the code `"INTERNAL"`.
    pub fn from_json_failure(failure: JsonFailure) -> (e: Error)
        ensures
            e == Error::for_json_failure(failure),
    {
        match failure {
            JsonFailure::Syntax => Error::new("Serde: invalid json", Some("INTERNAL"), None),
            JsonFailure::Io | JsonFailure::Data | JsonFailure::Eof => Error::new(
                "Serde: fail",
                Some("INTERNAL"),
                None,
            ),
        }
    }
}

impl PartialEq for Error {
    fn eq(&self, other: &Error) -> (same: bool) {
        let same_extension = match (&self.extension, &other.extension) {
            (Some(a), Some(b)) => same_entries(a, b),
            (None, None) => true,
            _ => false,
        };
        str_eq(self.message, other.message) && opt_str_eq(self.code, other.code) && same_extension
    }
}

impl vstd::std_specs::cmp::PartialEqSpecImpl for Error {
    open spec fn obeys_eq_spec() -> bool {
        true
    }

    open spec fn eq_spec(&self, other: &Error) -> bool {
        self@ == other@
    }
}

impl From<JsonError> for Error {
    fn from(err: JsonError) -> (e: Error) {
        Error::from_json_failure(classify(&err))
    }
}

impl vstd::std_specs::convert::FromSpecImpl<JsonError> for Error {
    open spec fn obeys_from_spec() -> bool {
        true
    }

    open spec fn from_spec(err: JsonError) -> Error {
        Error::for_json_failure(json_failure_of(err))
    }
}

impl From<IoError> for Error {
    fn from(err: IoError) -> (e: Error) {
        Error::new("IO Isssues", Some("INTERNAL"), None)
    }
}

impl vstd::std_specs::convert::FromSpecImpl<IoError> for Error {
    open spec fn obeys_from_spec() -> bool {
        true
    }

    open spec fn from_spec(err: IoError) -> Error {
        Error::for_io_failure()
    }
}

} // verus!
