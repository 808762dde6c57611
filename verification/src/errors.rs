//! The error taxonomy shared by every component of the runtime.

use vstd::prelude::*;

verus! {

/// Every failure the runtime reports to a plugin or to a caller.
///
/// Each variant carries a human-readable description of the underlying
/// failure; the variant itself is the machine-readable kind.
#[derive(Debug, Clone, PartialEq, Eq)]
pub enum Error {
    /// A payload could not be marshaled across the sandbox boundary.
    Serialization(String),
    /// A render was requested on a plugin that does not render.
    InvalidRender,
    /// A SQL string could not be parsed.
    SqlParser,
    /// A file's content was not encoded in the expected shape.
    FileCodec(String),
    /// A matcher pattern is not a valid regular expression.
    Regex(String),
    /// The sandbox channel or routing failed.
    PluginError(String),
    /// The storage layer rejected or failed a statement, including the
    /// read-only authorization rejection.
    DatabaseError(String),
}

impl Error {
    /// A short stable name for the error kind, for logs and tests.
    pub fn kind_name(&self) -> (r: &'static str)
        ensures
            self is Serialization ==> r@ == "Serialization"@,
            self is InvalidRender ==> r@ == "InvalidRender"@,
            self is SqlParser ==> r@ == "SqlParser"@,
            self is FileCodec ==> r@ == "FileCodec"@,
            self is Regex ==> r@ == "Regex"@,
            self is PluginError ==> r@ == "PluginError"@,
            self is DatabaseError ==> r@ == "DatabaseError"@,
    {
        match self {
            Error::Serialization(_) => "Serialization",
            Error::InvalidRender => "InvalidRender",
            Error::SqlParser => "SqlParser",
            Error::FileCodec(_) => "FileCodec",
            Error::Regex(_) => "Regex",
            Error::PluginError(_) => "PluginError",
            Error::DatabaseError(_) => "DatabaseError",
        }
    }
}

} // verus!
