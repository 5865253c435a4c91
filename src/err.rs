//! The crate's error type and the helpers that build its messages.
use vstd::prelude::*;
use vstd::string::*;

verus! {

/// An error carrying a human-readable message.
#[derive(Debug)]
pub struct ObstacleError {
    pub message: String,
}

/// The text that `err_missing_feature` carries.
pub open spec fn missing_feature_text(feature: Seq<char>, scheme: Seq<char>) -> Seq<char> {
    "feature '"@ + feature + "' must be enabled in order to use '"@ + scheme + "' cloud urls"@
}

/// The text that `err_missing_configuration` carries.
pub open spec fn missing_configuration_text(feature: Seq<char>, scheme: Seq<char>) -> Seq<char> {
    "configuration '"@ + feature + "' must be provided in order to use '"@ + scheme
        + "' cloud urls"@
}

/// Relies on `ToString::to_string` of std's `Error` (through `Display`):
/// the error's own description of itself.
#[verifier::external_body]
fn describe<S: std::error::Error>(err: &S) -> (r: String) {
    err.to_string()
}

impl ObstacleError {
    /// An error with the given message.
    pub fn new(msg: &str) -> (r: ObstacleError)
        ensures
            r.message@ == msg@,
    {
        ObstacleError { message: String::from_str(msg) }
    }

    /// An error whose message is the description of another error.
    pub fn from_err<S: std::error::Error>(err: S) -> (r: ObstacleError) {
        ObstacleError { message: describe(&err) }
    }

    /// The message of the error.
    pub fn to_string(&self) -> (r: String)
        ensures
            r@ == self.message@,
    {
        self.message.clone()
    }
}

/// An `Err` carrying a new error with the given message.
pub fn obstinate_err<T>(msg: &str) -> (r: Result<T, ObstacleError>)
    ensures
        r matches Err(e) && e.message@ == msg@,
{
    Err(ObstacleError::new(msg))
}

/// The error for a provider whose support is not enabled.
pub fn err_missing_feature<T>(feature: &str, scheme: &str) -> (r: Result<T, ObstacleError>)
    ensures
        r matches Err(e) && e.message@ == missing_feature_text(feature@, scheme@),
{
    let mut m = String::from_str("feature '");
    m.append(feature);
    m.append("' must be enabled in order to use '");
    m.append(scheme);
    m.append("' cloud urls");
    Err(ObstacleError { message: m })
}

/// The error for a provider whose configuration was not given.
pub fn err_missing_configuration(feature: &str, scheme: &str) -> (r: ObstacleError)
    ensures
        r.message@ == missing_configuration_text(feature@, scheme@),
{
    let mut m = String::from_str("configuration '");
    m.append(feature);
    m.append("' must be provided in order to use '");
    m.append(scheme);
    m.append("' cloud urls");
    ObstacleError { message: m }
}

} // verus!
