//! External tools: how they are invoked and what comes back.

use crate::error::{failed_to_run, not_text, text_result, Error, ErrorKind, ErrorView};
use vstd::prelude::*;
use vstd::utf8::{decode_utf8, valid_utf8};

verus! {

/// How to invoke a tool.
#[derive(Clone, PartialEq, Eq, Debug)]
pub struct Invocation {
    /// The executable's name.
    pub program: String,
    /// Its arguments, in order.
    pub args: Vec<String>,
    /// Whether it runs on the caller's terminal; otherwise its output is captured.
    pub attached: bool,
}

/// An [`Invocation`] as a mathematical value.
pub struct InvocationView {
    pub program: Seq<char>,
    pub args: Seq<Seq<char>>,
    pub attached: bool,
}

/// The arguments as texts.
pub open spec fn texts(args: Seq<String>) -> Seq<Seq<char>> {
    Seq::new(args.len(), |i: int| args[i]@)
}

impl View for Invocation {
    type V = InvocationView;

    open spec fn view(&self) -> InvocationView {
        InvocationView { program: self.program@, args: texts(self.args@), attached: self.attached }
    }
}

/// What a tool left behind when it ended.
#[derive(Clone, PartialEq, Eq, Debug)]
pub struct Exit {
    /// Whether it reported success.
    pub success: bool,
    /// What it wrote to its output stream.
    pub stdout: Vec<u8>,
    /// What it wrote to its error stream.
    pub stderr: Vec<u8>,
}

/// An [`Exit`] as a mathematical value.
pub struct ExitView {
    pub success: bool,
    pub stdout: Seq<u8>,
    pub stderr: Seq<u8>,
}

impl View for Exit {
    type V = ExitView;

    open spec fn view(&self) -> ExitView {
        ExitView { success: self.success, stdout: self.stdout@, stderr: self.stderr@ }
    }
}

/// `core::str::from_utf8`: the text that `bytes` encode in UTF-8. There is one
/// exactly when the bytes are valid UTF-8; this is not proved here.
#[verifier::external_body]
fn decode(bytes: &[u8]) -> (text: Option<&str>)
    ensures
        text is Some <==> valid_utf8(bytes@),
        text is Some ==> text->0@ == decode_utf8(bytes@),
{
    match core::str::from_utf8(bytes) {
        Ok(text) => Some(text),
        Err(_) => None,
    }
}

/// The text in `bytes`, if they are text.
pub open spec fn text_of(bytes: Seq<u8>) -> Option<Seq<char>> {
    if valid_utf8(bytes) {
        Some(decode_utf8(bytes))
    } else {
        None
    }
}

/// Reads `bytes` as text.
pub fn read_text(bytes: &[u8]) -> (text: Option<String>)
    ensures
        text is Some <==> text_of(bytes@) is Some,
        text is Some ==> text->0@ == text_of(bytes@)->0,
{
    match decode(bytes) {
        Some(text) => Some(String::from_str(text)),
        None => None,
    }
}

/// Joins three texts.
pub fn join3(a: &str, b: &str, c: &str) -> (text: String)
    ensures
        text@ == a@ + b@ + c@,
{
    let mut text = String::from_str(a);
    text.append(b);
    text.append(c);
    text
}

/// What the end of `program` means to its caller: the text it wrote on success;
/// on failure an error of the given kind that quotes its error stream.
pub open spec fn run_spec(program: Seq<char>, exit: ExitView, kind: ErrorKind) -> Result<
    Seq<char>,
    ErrorView,
> {
    if exit.success {
        match text_of(exit.stdout) {
            Some(text) => Ok(text),
            None => Err(ErrorView { kind, message: not_text(program) }),
        }
    } else {
        match text_of(exit.stderr) {
            Some(text) => Err(ErrorView { kind, message: failed_to_run(program, text) }),
            None => Err(ErrorView { kind, message: not_text(program) }),
        }
    }
}

/// Judges how `program` ended.
pub fn run(program: &str, exit: &Exit, kind: ErrorKind) -> (result: Result<String, Error>)
    ensures
        text_result(result) == run_spec(program@, exit@, kind),
{
    if exit.success {
        match read_text(exit.stdout.as_slice()) {
            Some(text) => Ok(text),
            None => Err(Error { kind, message: join3("Output of ", program, " is not valid UTF-8") }),
        }
    } else {
        match read_text(exit.stderr.as_slice()) {
            Some(text) => {
                let mut message = join3("Failed to run ", program, ": '");
                message.append(text.as_str());
                message.append("'");
                Err(Error { kind, message })
            },
            None => Err(Error { kind, message: join3("Output of ", program, " is not valid UTF-8") }),
        }
    }
}

} // verus!
