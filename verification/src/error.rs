//! Errors of the binding: the failures that Lua reports, with their
//! status codes and messages, and input/output failures.

use libc::c_int;
use std::fmt::Write;
use vstd::prelude::*;
use vstd::std_specs::convert::FromSpecImpl;
use crate::consts::{LUA_ERRERR, LUA_ERRFILE, LUA_ERRMEM, LUA_ERRRUN, LUA_ERRSYNTAX};
use crate::text::{bstr_lossy_text, decimal_text, push_bytes_text, push_decimal};

verus! {

#[verifier::external_type_specification]
#[verifier::external_body]
pub struct ExIoError(std::io::Error);

/// A failure of a Lua call, with the message that Lua left, when there is
/// one, as raw bytes.
#[derive(Debug)]
pub enum LuaError {
    /// Memory could not be allocated (`LUA_ERRMEM`).
    AllocationError(Option<Vec<u8>>),
    /// A chunk did not compile (`LUA_ERRSYNTAX`).
    SyntaxError(Option<Vec<u8>>),
    /// A runtime error (`LUA_ERRRUN`).
    RuntimeError(Option<Vec<u8>>),
    /// A file could not be opened or read (`LUA_ERRFILE`).
    FileError(Option<Vec<u8>>),
    /// An error while running the error handler (`LUA_ERRERR`).
    NestedError(Option<Vec<u8>>),
    /// Any other status code.
    OtherError(c_int, Option<Vec<u8>>),
}

/// A failure of the binding.
#[derive(Debug)]
pub enum Error {
    /// A failure that Lua reported.
    LuaError(LuaError),
    /// An input/output failure.
    IoError(std::io::Error),
}

/// Result of the binding's operations.
pub type Result<S, E = Error> = core::result::Result<S, E>;

/// The status code of a Lua failure.
pub open spec fn lua_status(e: LuaError) -> int {
    match e {
        LuaError::AllocationError(_) => LUA_ERRMEM as int,
        LuaError::SyntaxError(_) => LUA_ERRSYNTAX as int,
        LuaError::RuntimeError(_) => LUA_ERRRUN as int,
        LuaError::FileError(_) => LUA_ERRFILE as int,
        LuaError::NestedError(_) => LUA_ERRERR as int,
        LuaError::OtherError(s, _) => s as int,
    }
}

/// The status code of a failure: an input/output failure counts as a file error.
pub open spec fn error_status(e: Error) -> int {
    match e {
        Error::LuaError(l) => lua_status(l),
        Error::IoError(_) => LUA_ERRFILE as int,
    }
}

/// The bytes of Lua's message, when there is one.
pub open spec fn lua_detail(e: LuaError) -> Option<Seq<u8>> {
    match e {
        LuaError::AllocationError(d) => opt_bytes(d),
        LuaError::SyntaxError(d) => opt_bytes(d),
        LuaError::RuntimeError(d) => opt_bytes(d),
        LuaError::FileError(d) => opt_bytes(d),
        LuaError::NestedError(d) => opt_bytes(d),
        LuaError::OtherError(_, d) => opt_bytes(d),
    }
}

pub open spec fn opt_bytes(d: Option<Vec<u8>>) -> Option<Seq<u8>> {
    match d {
        Some(v) => Some(v@),
        None => None,
    }
}

/// The words that open the message of a Lua failure.
pub open spec fn lua_label(e: LuaError) -> Seq<char> {
    match e {
        LuaError::AllocationError(_) => "Allocation Error"@,
        LuaError::SyntaxError(_) => "Syntax Error"@,
        LuaError::RuntimeError(_) => "Runtime Error"@,
        LuaError::FileError(_) => "File Error"@,
        LuaError::NestedError(_) => "Nested Error"@,
        LuaError::OtherError(s, _) => "Unknown Lua Error "@ + decimal_text(s as int),
    }
}

/// The message of a Lua failure: its label, then, when Lua left a
/// message, `: ` and that message as text.
pub open spec fn lua_message(e: LuaError) -> Seq<char> {
    match lua_detail(e) {
        Some(b) => lua_label(e) + ": "@ + bstr_lossy_text(b),
        None => lua_label(e),
    }
}

impl LuaError {
    /// The Lua status code of this failure.
    pub fn status(&self) -> (r: c_int)
        ensures
            r == lua_status(*self),
    {
        match self {
            LuaError::AllocationError(_) => LUA_ERRMEM,
            LuaError::SyntaxError(_) => LUA_ERRSYNTAX,
            LuaError::RuntimeError(_) => LUA_ERRRUN,
            LuaError::FileError(_) => LUA_ERRFILE,
            LuaError::NestedError(_) => LUA_ERRERR,
            LuaError::OtherError(s, _) => *s,
        }
    }

    /// The message that describes this failure (what `Display` shows).
    pub fn message(&self) -> (r: String)
        ensures
            r@ == lua_message(*self),
    {
        let mut s = String::new();
        let detail: &Option<Vec<u8>> = match self {
            LuaError::AllocationError(d) => {
                s.append("Allocation Error");
                d
            },
            LuaError::SyntaxError(d) => {
                s.append("Syntax Error");
                d
            },
            LuaError::RuntimeError(d) => {
                s.append("Runtime Error");
                d
            },
            LuaError::FileError(d) => {
                s.append("File Error");
                d
            },
            LuaError::NestedError(d) => {
                s.append("Nested Error");
                d
            },
            LuaError::OtherError(code, d) => {
                s.append("Unknown Lua Error ");
                push_decimal(&mut s, *code);
                d
            },
        };
        assert(s@ == lua_label(*self));
        assert(opt_bytes(*detail) == lua_detail(*self));
        match detail {
            Some(bytes) => {
                s.append(": ");
                push_bytes_text(&mut s, bytes.as_slice());
            },
            None => {},
        }
        s
    }
}

/// The message of a failure: a Lua failure's own message, or `IO Error: `
/// followed by the input/output error's text.
pub open spec fn error_message_prefix(e: Error) -> Seq<char> {
    match e {
        Error::LuaError(l) => lua_message(l),
        Error::IoError(_) => "IO Error: "@,
    }
}

/// The text of an input/output error, through its `Display`: `None` when
/// that `Display` (the one of an inner error) reports a formatting failure.
///
/// Trusted: nothing is stated of the text, which comes from the operating
/// system for its own error codes, or from the `Display` of an inner error.
#[verifier::external_body]
fn io_error_text(e: &std::io::Error) -> Option<String> {
    let mut s = String::new();
    match write!(s, "{}", e) {
        Ok(()) => Some(s),
        Err(_) => None,
    }
}

/// The message of an input/output failure, given the error's own text:
/// `IO Error: ` followed by that text.
pub fn io_message(text: &str) -> (r: String)
    ensures
        r@ == "IO Error: "@ + text@,
{
    let mut s = String::new();
    s.append("IO Error: ");
    s.append(text);
    s
}

/// The message of an input/output failure: `IO Error: ` and the error's
/// text, or `None` when the error's `Display` fails (showing the failure
/// then fails too).
pub fn io_error_message(e: &std::io::Error) -> (r: Option<String>)
    ensures
        r matches Some(m) ==> m@.len() >= 10 && m@.subrange(0, 10) == "IO Error: "@,
{
    match io_error_text(e) {
        Some(t) => {
            let s = io_message(t.as_str());
            proof {
                reveal_strlit("IO Error: ");
                assert(s@.subrange(0, 10) =~= "IO Error: "@);
            }
            Some(s)
        },
        None => None,
    }
}

impl Error {
    /// The Lua status code of this failure.
    pub fn status(&self) -> (r: c_int)
        ensures
            r == error_status(*self),
    {
        match self {
            Error::LuaError(e) => e.status(),
            Error::IoError(_) => LUA_ERRFILE,
        }
    }

    /// The message that describes this failure (what `Display` shows): a
    /// Lua failure's message, or `IO Error: ` and the input/output error's
    /// text; `None` when showing the input/output error fails.
    pub fn message(&self) -> (r: Option<String>)
        ensures
            self is LuaError ==> (r matches Some(m) && m@ == error_message_prefix(*self)),
            self is IoError ==> (r matches Some(m) ==> m@.len() >= 10 && m@.subrange(0, 10)
                == error_message_prefix(*self)),
    {
        match self {
            Error::LuaError(e) => Some(e.message()),
            Error::IoError(e) => io_error_message(e),
        }
    }
}

/// Law: a Lua failure turned into an [`Error`] keeps its status code, and
/// an input/output failure has the status of a file error.
pub proof fn lemma_conversion_keeps_status(e: LuaError, io: std::io::Error)
    ensures
        error_status(<Error as vstd::std_specs::convert::FromSpec<LuaError>>::from_spec(e)) == lua_status(e),
        error_status(<Error as vstd::std_specs::convert::FromSpec<std::io::Error>>::from_spec(io)) == LUA_ERRFILE,
{
}

/// Law: each kind of Lua failure has Lua's own status code, whatever its
/// message: memory 4, syntax 3, runtime 2, file 6, error handler 5, and any
/// other failure the code it carries; an input/output failure counts as a
/// file error (6).
pub proof fn lemma_status_codes(d: Option<Vec<u8>>, code: c_int, io: std::io::Error)
    ensures
        lua_status(LuaError::AllocationError(d)) == 4,
        lua_status(LuaError::SyntaxError(d)) == 3,
        lua_status(LuaError::RuntimeError(d)) == 2,
        lua_status(LuaError::FileError(d)) == 6,
        lua_status(LuaError::NestedError(d)) == 5,
        lua_status(LuaError::OtherError(code, d)) == code,
        error_status(Error::IoError(io)) == 6,
        error_status(Error::LuaError(LuaError::OtherError(code, d))) == code,
{
}

/// Law: the message of each kind of Lua failure with no message from Lua
/// is its fixed label; with a message from Lua, `: ` and that message as
/// text follow the label.
pub proof fn lemma_labels(b: Vec<u8>, code: c_int)
    ensures
        lua_message(LuaError::AllocationError(None)) == "Allocation Error"@,
        lua_message(LuaError::SyntaxError(None)) == "Syntax Error"@,
        lua_message(LuaError::RuntimeError(None)) == "Runtime Error"@,
        lua_message(LuaError::FileError(None)) == "File Error"@,
        lua_message(LuaError::NestedError(None)) == "Nested Error"@,
        lua_message(LuaError::OtherError(code, None)) == "Unknown Lua Error "@ + decimal_text(
            code as int,
        ),
        lua_message(LuaError::RuntimeError(Some(b))) == "Runtime Error"@ + ": "@ + bstr_lossy_text(
            b@,
        ),
        lua_message(LuaError::OtherError(code, Some(b))) == "Unknown Lua Error "@ + decimal_text(
            code as int,
        ) + ": "@ + bstr_lossy_text(b@),
{
}

/// Law: the named kinds of Lua failure have the status codes 2 to 6, one
/// each, so the status code of a named kind tells which kind it is.
pub proof fn lemma_status_tells_named_kind(a: LuaError, b: LuaError)
    requires
        !(a is OtherError),
        !(b is OtherError),
    ensures
        LUA_ERRRUN <= lua_status(a) <= LUA_ERRFILE,
        lua_status(a) == lua_status(b) <==> (
            (a is AllocationError) == (b is AllocationError)
            && (a is SyntaxError) == (b is SyntaxError)
            && (a is RuntimeError) == (b is RuntimeError)
            && (a is FileError) == (b is FileError)
            && (a is NestedError) == (b is NestedError)
        ),
{
}

/// Law: the message of a Lua failure opens with its label, and is exactly
/// the label when Lua left no message.
pub proof fn lemma_message_opens_with_label(e: LuaError)
    ensures
        lua_message(e).len() >= lua_label(e).len(),
        lua_message(e).subrange(0, lua_label(e).len() as int) == lua_label(e),
        lua_detail(e) is None ==> lua_message(e) == lua_label(e),
{
    match lua_detail(e) {
        Some(b) => {
            assert(lua_message(e) == lua_label(e) + (": "@ + bstr_lossy_text(b)));
            assert(lua_message(e).subrange(0, lua_label(e).len() as int) =~= lua_label(e));
        },
        None => {
            assert(lua_message(e).subrange(0, lua_label(e).len() as int) =~= lua_label(e));
        },
    }
}

impl From<std::io::Error> for Error {
    fn from(e: std::io::Error) -> (r: Error) {
        Error::IoError(e)
    }
}

impl FromSpecImpl<std::io::Error> for Error {
    open spec fn obeys_from_spec() -> bool {
        true
    }

    open spec fn from_spec(v: std::io::Error) -> Error {
        Error::IoError(v)
    }
}

impl From<LuaError> for Error {
    fn from(e: LuaError) -> (r: Error) {
        Error::LuaError(e)
    }
}

impl FromSpecImpl<LuaError> for Error {
    open spec fn obeys_from_spec() -> bool {
        true
    }

    open spec fn from_spec(v: LuaError) -> Error {
        Error::LuaError(v)
    }
}

} // verus!
