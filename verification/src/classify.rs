//! Response classification: from the exit status and captured streams of one
//! engine invocation to a parsed JSON value or a typed failure.
//!
//! A non-zero exit is an engine error carrying the decoded standard-error
//! text; a zero exit with unparseable standard output is malformed output,
//! carrying the parse diagnostic and a bounded excerpt of the raw text; a
//! zero exit with valid JSON is a success, returned verbatim. No failure is
//! retried here and none is swallowed.

use vstd::prelude::*;
use vstd::string::{StrSliceExecFns, StringExecFns};

verus! {

#[verifier::external_type_specification]
#[verifier::external_body]
pub struct ExValue(serde_json::Value);

/// The parse diagnostic serde_json gives for a text, or `None` when the text
/// is valid JSON. Whether a text parses, and the diagnostic when it does not,
/// depend on the text alone.
pub uninterp spec fn json_parse_err(s: Seq<char>) -> Option<Seq<char>>;

/// Relies on serde_json::from_str for `Value`: whether a text parses, and
/// the diagnostic when it does not, are deterministic in the text.
#[verifier::external_body]
fn parse_json(s: &str) -> (r: Result<serde_json::Value, String>)
    ensures
        r is Ok <==> json_parse_err(s@) is None,
        r matches Err(e) ==> json_parse_err(s@) == Option::Some(e@),
{
    match serde_json::from_str(s) {
        Ok(v) => Ok(v),
        Err(e) => Err(e.to_string()),
    }
}

/// What `String::from_utf8_lossy` decodes a byte sequence to.
pub uninterp spec fn lossy_utf8_of(bytes: Seq<u8>) -> Seq<char>;

/// Relies on String::from_utf8_lossy: the decoding depends on the bytes
/// alone, and ASCII bytes (valid UTF-8) decode to themselves.
#[verifier::external_body]
fn utf8_lossy(bytes: &Vec<u8>) -> (r: String)
    ensures
        r@ == lossy_utf8_of(bytes@),
        (forall|i: int| 0 <= i < bytes@.len() ==> bytes@[i] < 0x80) ==> r@ == bytes@.map_values(
            |b: u8| b as char,
        ),
{
    String::from_utf8_lossy(bytes.as_slice()).into_owned()
}

/// How many characters of the raw output a malformed-output diagnostic keeps.
pub const EXCERPT_MAX: usize = 512;

/// The bounded prefix of the raw output kept for diagnostics.
pub open spec fn excerpt_of(s: Seq<char>) -> Seq<char> {
    if s.len() <= EXCERPT_MAX {
        s
    } else {
        s.take(EXCERPT_MAX as int)
    }
}

/// What one engine invocation produced: its exit code and the captured
/// output streams. Ephemeral — built for one call and discarded.
pub struct InvocationResult {
    /// The child process's exit code.
    pub exit_code: i32,
    /// Captured standard output bytes.
    pub stdout: Vec<u8>,
    /// Captured standard error bytes.
    pub stderr: Vec<u8>,
}

/// The classified failures of a bridge call. Every failure carries the text
/// surfaced to the caller; none is silently swallowed.
#[derive(Debug)]
pub enum BridgeError {
    /// No launcher candidate could start a process; carries the last
    /// underlying error.
    InterpreterUnavailable {
        /// The error recorded for the last candidate tried.
        last_error: String,
    },
    /// The engine started, ran, and exited non-zero; carries the decoded
    /// standard-error text, verbatim.
    EngineError {
        /// The decoded standard-error text.
        stderr_text: String,
    },
    /// The engine exited zero but printed something that is not valid JSON.
    MalformedOutput {
        /// The parser's diagnostic.
        parse_error: String,
        /// A bounded prefix of the raw output.
        excerpt: String,
    },
}

impl BridgeError {
    /// The single error string surfaced to the shell for this failure.
    pub fn message(&self) -> (r: String)
        ensures
            match self {
                BridgeError::InterpreterUnavailable { last_error } => r@
                    == "interpreter unavailable: "@ + last_error@,
                BridgeError::EngineError { stderr_text } => r@ == "engine error: "@
                    + stderr_text@,
                BridgeError::MalformedOutput { parse_error, excerpt } => r@
                    == "malformed output: "@ + parse_error@ + " | output: "@ + excerpt@,
            },
    {
        match self {
            BridgeError::InterpreterUnavailable { last_error } => {
                String::from_str("interpreter unavailable: ").concat(last_error.as_str())
            },
            BridgeError::EngineError { stderr_text } => {
                String::from_str("engine error: ").concat(stderr_text.as_str())
            },
            BridgeError::MalformedOutput { parse_error, excerpt } => {
                String::from_str("malformed output: ").concat(parse_error.as_str()).concat(
                    " | output: ",
                ).concat(excerpt.as_str())
            },
        }
    }
}

/// Classify one invocation: a non-zero exit is an engine error with the
/// decoded stderr text; on a zero exit the stdout text is parsed as JSON and
/// returned verbatim on success; otherwise the failure is malformed output
/// with the parse diagnostic and a bounded excerpt of the raw text.
pub fn classify(inv: InvocationResult) -> (r: Result<serde_json::Value, BridgeError>)
    ensures
        r is Ok <==> inv.exit_code == 0 && json_parse_err(lossy_utf8_of(inv.stdout@)) is None,
        inv.exit_code != 0 ==> (r matches Err(BridgeError::EngineError { stderr_text })
            && stderr_text@ == lossy_utf8_of(inv.stderr@)),
        inv.exit_code == 0 && json_parse_err(lossy_utf8_of(inv.stdout@)) is None ==> r is Ok,
        inv.exit_code == 0 && json_parse_err(lossy_utf8_of(inv.stdout@)) is Some ==> (r matches Err(
            BridgeError::MalformedOutput { parse_error, excerpt },
        ) && json_parse_err(lossy_utf8_of(inv.stdout@)) == Option::Some(parse_error@) && excerpt@
            == excerpt_of(lossy_utf8_of(inv.stdout@))),
{
    if inv.exit_code != 0 {
        Err(BridgeError::EngineError { stderr_text: utf8_lossy(&inv.stderr) })
    } else {
        let stdout_text = utf8_lossy(&inv.stdout);
        match parse_json(stdout_text.as_str()) {
            Ok(val) => Ok(val),
            Err(parse_error) => {
                let len = stdout_text.as_str().unicode_len();
                let end = if len < EXCERPT_MAX {
                    len
                } else {
                    EXCERPT_MAX
                };
                let ex = stdout_text.as_str().substring_char(0, end);
                assert(ex@ =~= excerpt_of(stdout_text@));
                Err(
                    BridgeError::MalformedOutput {
                        parse_error,
                        excerpt: String::from_str(ex),
                    },
                )
            },
        }
    }
}

} // verus!
