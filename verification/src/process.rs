//! What a finished command leaves behind.

use vstd::prelude::*;
use vstd::utf8::{decode_utf8, valid_utf8};

use crate::failure::Failure;
use crate::text::{trim, trimmed};

verus! {

/// What a command that ran left: whether it succeeded, its status as text, and what it
/// wrote.
#[derive(Debug)]
pub struct CommandOutput {
    pub success: bool,
    pub status: String,
    pub stdout: Vec<u8>,
    pub stderr: Vec<u8>,
}

/// The answer to a request to run a command.
#[derive(Debug)]
pub enum Reply {
    /// The command could not be started, and why.
    NotRun { error: String },
    /// The command ran.
    Finished(CommandOutput),
}

/// The text that `String::from_utf8_lossy` makes of bytes.
pub uninterp spec fn lossy_text(bytes: Seq<u8>) -> Seq<char>;

/// `String::from_utf8_lossy` depends on the bytes alone, and decodes bytes that are
/// UTF-8.
#[verifier::external_body]
fn from_utf8_lossy(bytes: &Vec<u8>) -> (r: String)
    ensures
        r@ == lossy_text(bytes@),
        valid_utf8(bytes@) ==> r@ == decode_utf8(bytes@),
{
    String::from_utf8_lossy(bytes).to_string()
}

/// What the error of `String::from_utf8` says of bytes that are not UTF-8.
pub uninterp spec fn utf8_complaint(bytes: Seq<u8>) -> Seq<char>;

/// `String::from_utf8` decodes bytes that are UTF-8 and refuses all others. What its error
/// says, displayed, depends on the bytes alone.
#[verifier::external_body]
fn from_utf8(bytes: Vec<u8>) -> (r: Result<String, String>)
    ensures
        match r {
            Ok(s) => valid_utf8(bytes@) && s@ == decode_utf8(bytes@),
            Err(error) => !valid_utf8(bytes@) && error@ == utf8_complaint(bytes@),
        },
{
    match String::from_utf8(bytes) {
        Ok(s) => Ok(s),
        Err(error) => Err(error.to_string()),
    }
}

/// The text in `bytes`, with what is not UTF-8 replaced.
pub fn lossy(bytes: &Vec<u8>) -> (r: String)
    ensures
        r@ == lossy_text(bytes@),
        valid_utf8(bytes@) ==> r@ == decode_utf8(bytes@),
{
    from_utf8_lossy(bytes)
}

/// The text in `bytes`, or why they are not UTF-8.
pub fn decode(bytes: Vec<u8>) -> (r: Result<String, String>)
    ensures
        match r {
            Ok(s) => valid_utf8(bytes@) && s@ == decode_utf8(bytes@),
            Err(error) => !valid_utf8(bytes@) && error@ == utf8_complaint(bytes@),
        },
{
    from_utf8(bytes)
}

/// What a command complained about, without surrounding white space.
pub open spec fn complaint(output: CommandOutput) -> Seq<char> {
    trimmed(lossy_text(output.stderr@))
}

/// The output of a command that succeeded with text.
pub open spec fn output_text(reply: Reply) -> Option<Seq<char>> {
    match reply {
        Reply::Finished(o) => if o.success && valid_utf8(o.stdout@) {
            Some(decode_utf8(o.stdout@))
        } else {
            None
        },
        Reply::NotRun { .. } => None,
    }
}

/// `r` is what a command that is asked for its output yields: its output if it succeeded
/// with text, and else a failure that names `action` and what went wrong.
pub open spec fn is_checked_output(
    reply: Reply,
    action: Seq<char>,
    r: Result<String, Failure>,
) -> bool {
    match reply {
        Reply::NotRun { error } => r matches Err(Failure::CommandNotRun { action: a, error: e })
            && a@ == action && e == error,
        Reply::Finished(output) => if output.success {
            if valid_utf8(output.stdout@) {
                r matches Ok(t) && t@ == decode_utf8(output.stdout@)
            } else {
                r matches Err(Failure::InvalidUtf8 { action: a, error }) && a@ == action
                    && error@ == utf8_complaint(output.stdout@)
            }
        } else if complaint(output).len() == 0 {
            r matches Err(Failure::CommandFailed { action: a, status }) && a@ == action && status
                == output.status
        } else {
            r matches Err(Failure::CommandFailedWith { action: a, stderr }) && a@ == action
                && stderr@ == complaint(output)
        },
    }
}

/// The output of a command, or why there is none.
pub fn checked_output(reply: Reply, action: &str) -> (r: Result<String, Failure>)
    ensures
        is_checked_output(reply, action@, r),
{
    match reply {
        Reply::NotRun { error } => Err(
            Failure::CommandNotRun { action: action.to_string(), error },
        ),
        Reply::Finished(output) => {
            if !output.success {
                let stderr = trim(&lossy(&output.stderr));
                if stderr.as_str().is_empty() {
                    return Err(
                        Failure::CommandFailed {
                            action: action.to_string(),
                            status: output.status,
                        },
                    );
                }
                return Err(
                    Failure::CommandFailedWith { action: action.to_string(), stderr },
                );
            }
            match decode(output.stdout) {
                Ok(text) => Ok(text),
                Err(error) => Err(Failure::InvalidUtf8 { action: action.to_string(), error }),
            }
        },
    }
}

} // verus!
