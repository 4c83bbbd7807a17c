use vstd::prelude::*;
use vstd::string::StringExecFns;

verus! {

/// Every way a run can fail. Each failure is terminal: nothing is retried.
/// Variants that carry a `String` hold the detail that the message shows.
#[derive(Debug)]
pub enum TranslateError {
    /// The arguments did not fit the invocation's mode; holds the usage line.
    UsageError(String),
    /// The platform's user configuration directory could not be determined.
    ConfigDirUnavailable,
    /// The configuration file could not be read; holds the path and cause.
    ConfigReadError(String),
    /// The configuration file is not valid, or `auth_key` is absent or not a
    /// string; holds the detail.
    ConfigParseError(String),
    /// The remote service answered with a non-success status; holds the
    /// response body, or a fallback text where the body could not be read.
    RemoteError(String),
    /// A success response whose body is not the expected structure; holds the
    /// detail.
    ResponseParseError(String),
    /// Redirected standard input could not be read to its end; holds the cause.
    StdinReadError(String),
}

/// The single line that a failing run writes to its error stream.
pub open spec fn spec_message(e: TranslateError) -> Seq<char> {
    match e {
        TranslateError::UsageError(u) => u@,
        TranslateError::ConfigDirUnavailable => "Cannot get config file directory"@,
        TranslateError::ConfigReadError(d) => "Cannot open config file "@ + d@,
        TranslateError::ConfigParseError(d) => "Cannot parse config file: "@ + d@,
        TranslateError::RemoteError(b) => "Error during translation: "@ + b@,
        TranslateError::ResponseParseError(d) => "Cannot parse translation response: "@ + d@,
        TranslateError::StdinReadError(d) => "Cannot read redirected input: "@ + d@,
    }
}

impl TranslateError {
    /// Renders the error as its one human-readable line.
    pub fn message(&self) -> (r: String)
        ensures
            r@ == spec_message(*self),
    {
        match self {
            TranslateError::UsageError(u) => u.clone(),
            TranslateError::ConfigDirUnavailable => "Cannot get config file directory".to_owned(),
            TranslateError::ConfigReadError(d) => {
                let mut s = "Cannot open config file ".to_owned();
                s.append(d.as_str());
                s
            },
            TranslateError::ConfigParseError(d) => {
                let mut s = "Cannot parse config file: ".to_owned();
                s.append(d.as_str());
                s
            },
            TranslateError::RemoteError(b) => {
                let mut s = "Error during translation: ".to_owned();
                s.append(b.as_str());
                s
            },
            TranslateError::ResponseParseError(d) => {
                let mut s = "Cannot parse translation response: ".to_owned();
                s.append(d.as_str());
                s
            },
            TranslateError::StdinReadError(d) => {
                let mut s = "Cannot read redirected input: ".to_owned();
                s.append(d.as_str());
                s
            },
        }
    }
}

/// A remote failure's message always ends with the response body that the
/// service sent, so the body text is never hidden from the user.
pub proof fn lemma_remote_message_shows_body(e: TranslateError)
    requires
        e is RemoteError,
    ensures
        spec_message(e).len() >= e->RemoteError_0@.len(),
        spec_message(e).subrange(
            spec_message(e).len() - e->RemoteError_0@.len(),
            spec_message(e).len() as int,
        ) == e->RemoteError_0@,
{
    let b = e->RemoteError_0@;
    let m = spec_message(e);
    assert(m == "Error during translation: "@ + b);
    assert(m.subrange(m.len() - b.len(), m.len() as int) =~= b);
}

} // verus!
