//! The error taxonomy: one reportable kind set unifying engine-internal
//! failures, value-conversion failures, and I/O-adjacent failures.

use vstd::prelude::*;
use vstd::string::StringExecFns;
use crate::ast::{dec_digits, dec_into};

verus! {

/// Everything that can go wrong while booting or invoking the document
/// engine, or while converting its dynamic values into typed nodes.
#[derive(Debug)]
pub enum UnlatexError {
    /// The engine could not allocate memory.
    Allocation,
    /// A string with an internal null byte was handed to the engine.
    InvalidString(String),
    /// A string coming out of the engine was not UTF-8.
    Utf8(String),
    /// An I/O error, carried as its rendered message.
    Io(String),
    /// An exception raised inside the engine.
    Exception { message: String, file: String, line: i32, stack: String },
    /// A dynamic value did not match the shape expected for a field or node.
    FromJs { from: String, to: String, message: Option<String> },
    /// A value could not be turned into an engine value.
    IntoJs { from: String, to: String, message: Option<String> },
    /// A callable was invoked with a number of arguments outside its
    /// expected range (`expected_min .. expected_max`, half open).
    NumArgs { expected_min: usize, expected_max: usize, given: usize },
    /// A value produced under one engine instance was used with another.
    UnrelatedRuntime,
    /// An engine failure with no mapped kind.
    Unknown,
}

/// The mathematical model of an [`UnlatexError`].
pub enum UnlatexErrorV {
    Allocation,
    InvalidString(Seq<char>),
    Utf8(Seq<char>),
    Io(Seq<char>),
    Exception { message: Seq<char>, file: Seq<char>, line: i32, stack: Seq<char> },
    FromJs { from: Seq<char>, to: Seq<char>, message: Option<Seq<char>> },
    IntoJs { from: Seq<char>, to: Seq<char>, message: Option<Seq<char>> },
    NumArgs { expected_min: usize, expected_max: usize, given: usize },
    UnrelatedRuntime,
    Unknown,
}

impl View for UnlatexError {
    type V = UnlatexErrorV;

    open spec fn view(&self) -> UnlatexErrorV {
        match self {
            UnlatexError::Allocation => UnlatexErrorV::Allocation,
            UnlatexError::InvalidString(s) => UnlatexErrorV::InvalidString(s@),
            UnlatexError::Utf8(s) => UnlatexErrorV::Utf8(s@),
            UnlatexError::Io(s) => UnlatexErrorV::Io(s@),
            UnlatexError::Exception { message, file, line, stack } => UnlatexErrorV::Exception {
                message: message@,
                file: file@,
                line: *line,
                stack: stack@,
            },
            UnlatexError::FromJs { from, to, message } => UnlatexErrorV::FromJs {
                from: from@,
                to: to@,
                message: match message {
                    Some(m) => Some(m@),
                    None => None,
                },
            },
            UnlatexError::IntoJs { from, to, message } => UnlatexErrorV::IntoJs {
                from: from@,
                to: to@,
                message: match message {
                    Some(m) => Some(m@),
                    None => None,
                },
            },
            UnlatexError::NumArgs { expected_min, expected_max, given } => UnlatexErrorV::NumArgs {
                expected_min: *expected_min,
                expected_max: *expected_max,
                given: *given,
            },
            UnlatexError::UnrelatedRuntime => UnlatexErrorV::UnrelatedRuntime,
            UnlatexError::Unknown => UnlatexErrorV::Unknown,
        }
    }
}

impl Clone for UnlatexError {
    /// A clone carries the same model; a cached boot failure is re-surfaced
    /// verbatim through this.
    fn clone(&self) -> (r: Self)
        ensures
            r@ == self@,
    {
        match self {
            UnlatexError::Allocation => UnlatexError::Allocation,
            UnlatexError::InvalidString(s) => UnlatexError::InvalidString(s.clone()),
            UnlatexError::Utf8(s) => UnlatexError::Utf8(s.clone()),
            UnlatexError::Io(s) => UnlatexError::Io(s.clone()),
            UnlatexError::Exception { message, file, line, stack } => UnlatexError::Exception {
                message: message.clone(),
                file: file.clone(),
                line: *line,
                stack: stack.clone(),
            },
            UnlatexError::FromJs { from, to, message } => UnlatexError::FromJs {
                from: from.clone(),
                to: to.clone(),
                message: match message {
                    Some(m) => Some(m.clone()),
                    None => None,
                },
            },
            UnlatexError::IntoJs { from, to, message } => UnlatexError::IntoJs {
                from: from.clone(),
                to: to.clone(),
                message: match message {
                    Some(m) => Some(m.clone()),
                    None => None,
                },
            },
            UnlatexError::NumArgs { expected_min, expected_max, given } => UnlatexError::NumArgs {
                expected_min: *expected_min,
                expected_max: *expected_max,
                given: *given,
            },
            UnlatexError::UnrelatedRuntime => UnlatexError::UnrelatedRuntime,
            UnlatexError::Unknown => UnlatexError::Unknown,
        }
    }
}

/// The model of a fallible result whose error side is this crate's [`UnlatexError`].
pub open spec fn rv<T: View>(r: Result<T, UnlatexError>) -> Result<T::V, UnlatexErrorV> {
    match r {
        Ok(t) => Ok(t@),
        Err(e) => Err(e@),
    }
}


/// The decimal rendering of a possibly negative number.
pub open spec fn int_digits(i: int) -> Seq<char> {
    if i < 0 {
        seq!['-'] + dec_digits((-i) as nat)
    } else {
        dec_digits(i as nat)
    }
}

/// Append the decimal rendering of `n`.
fn int_into(n: i32, out: &mut String)
    ensures
        final(out)@ == old(out)@ + int_digits(n as int),
{
    if n < 0 {
        crate::dynvalue::push_char(out, '-');
        let mag: usize = (-(n as i64)) as usize;
        dec_into(mag, out);
        proof {
            assert(old(out)@.push('-') + dec_digits(mag as nat) =~= old(out)@ + (seq!['-']
                + dec_digits((-(n as int)) as nat)));
        }
    } else {
        dec_into(n as usize, out);
    }
}

/// The one-line message of an error: its kind, and its details where the
/// kind carries any.
pub open spec fn spec_error_message(e: UnlatexErrorV) -> Seq<char> {
    match e {
        UnlatexErrorV::Allocation => "failed to allocate memory"@,
        UnlatexErrorV::InvalidString(_) => "found a string with a internal null byte while converting to C string"@,
        UnlatexErrorV::Utf8(_) => "string from rquickjs was not UTF-8"@,
        UnlatexErrorV::Io(_) => "an io error"@,
        UnlatexErrorV::Exception { message, file, line, .. } => "an exception raised by quickjs itself (details: "@
            + message + " at "@ + file + ":"@ + int_digits(line as int) + ")"@,
        UnlatexErrorV::FromJs { .. } => "error converting from javascript to a rust type"@,
        UnlatexErrorV::IntoJs { .. } => "error converting to javascript from a rust type"@,
        UnlatexErrorV::NumArgs { expected_min, expected_max, given } => "error matching of function arguments (details: expected "@
            + dec_digits(expected_min as nat) + ".."@ + dec_digits(expected_max as nat)
            + " arguments, but got "@ + dec_digits(given as nat) + ")"@,
        UnlatexErrorV::UnrelatedRuntime => "error when restoring a Persistent in a runtime other than the original runtime"@,
        UnlatexErrorV::Unknown => "an error from quickjs from which the specifics are unknown"@,
    }
}

impl UnlatexError {
    /// The one-line message of this error: its kind, and its details where
    /// the kind carries any.
    pub fn describe(&self) -> (r: String)
        ensures
            r@ == spec_error_message(self@),
    {
        let mut out = String::new();
        proof {
            assert(out@ =~= Seq::<char>::empty());
        }
        match self {
            UnlatexError::Allocation => {
                out.append("failed to allocate memory");
            },
            UnlatexError::InvalidString(_) => {
                out.append("found a string with a internal null byte while converting to C string");
            },
            UnlatexError::Utf8(_) => {
                out.append("string from rquickjs was not UTF-8");
            },
            UnlatexError::Io(_) => {
                out.append("an io error");
            },
            UnlatexError::Exception { message, file, line, .. } => {
                out.append("an exception raised by quickjs itself (details: ");
                out.append(message.as_str());
                out.append(" at ");
                out.append(file.as_str());
                out.append(":");
                int_into(*line, &mut out);
                out.append(")");
            },
            UnlatexError::FromJs { .. } => {
                out.append("error converting from javascript to a rust type");
            },
            UnlatexError::IntoJs { .. } => {
                out.append("error converting to javascript from a rust type");
            },
            UnlatexError::NumArgs { expected_min, expected_max, given } => {
                out.append("error matching of function arguments (details: expected ");
                dec_into(*expected_min, &mut out);
                out.append("..");
                dec_into(*expected_max, &mut out);
                out.append(" arguments, but got ");
                dec_into(*given, &mut out);
                out.append(")");
            },
            UnlatexError::UnrelatedRuntime => {
                out.append("error when restoring a Persistent in a runtime other than the original runtime");
            },
            UnlatexError::Unknown => {
                out.append("an error from quickjs from which the specifics are unknown");
            },
        }
        proof {
            assert(out@ =~= spec_error_message(self@));
        }
        out
    }
}

} // verus!
