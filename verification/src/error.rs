//! Errors.
use vstd::prelude::*;
use vstd::string::*;
use crate::text;

verus! {

/// Who is at fault for an error.
#[derive(Clone, Copy, Debug, PartialEq, Eq, Structural)]
pub enum Blame {
    /// The user.
    Human,
    /// This program, or the system.
    Internal,
}

/// An error that ends the program.
#[derive(Debug)]
pub struct MainError {
    pub blame: Blame,
    pub message: String,
}

/// What a `MainError` says.
pub struct MainErrorView {
    pub blame: Blame,
    pub message: Seq<char>,
}

impl View for MainError {
    type V = MainErrorView;

    open spec fn view(&self) -> MainErrorView {
        MainErrorView { blame: self.blame, message: self.message@ }
    }
}

/// An error that nobody is explicitly blamed for.
pub open spec fn internal(message: Seq<char>) -> MainErrorView {
    MainErrorView { blame: Blame::Internal, message }
}

/// An error that the user is blamed for.
pub open spec fn human(message: Seq<char>) -> MainErrorView {
    MainErrorView { blame: Blame::Human, message }
}

/// What comes of an operation, over views.
pub open spec fn result_view<T: View>(r: Result<T, MainError>) -> Result<T::V, MainErrorView> {
    match r {
        Ok(t) => Ok(t@),
        Err(e) => Err(e@),
    }
}

/// What comes of an operation that gives nothing back, over views.
pub open spec fn unit_view(r: Result<(), MainError>) -> Result<(), MainErrorView> {
    match r {
        Ok(()) => Ok(()),
        Err(e) => Err(e@),
    }
}

/// How the program ends, over views.
pub open spec fn code_view(r: Result<i32, MainError>) -> Result<i32, MainErrorView> {
    match r {
        Ok(code) => Ok(code),
        Err(e) => Err(e@),
    }
}

impl MainError {
    /// An error that nobody is explicitly blamed for.
    pub fn internal(message: &str) -> (r: MainError)
        ensures
            r@ == internal(message@),
    {
        MainError { blame: Blame::Internal, message: message.to_owned() }
    }

    /// An error that the user is blamed for.
    pub fn human(message: &str) -> (r: MainError)
        ensures
            r@ == human(message@),
    {
        MainError { blame: Blame::Human, message: message.to_owned() }
    }

    /// Whether the user is to blame.
    pub fn is_human(&self) -> (r: bool)
        ensures
            r == (self@.blame == Blame::Human),
    {
        self.blame == Blame::Human
    }
}

/// The line that the program prints for an error.
pub open spec fn error_line(err: MainErrorView) -> Seq<char> {
    if err.blame == Blame::Human {
        "error: "@ + err.message
    } else {
        "internal error: "@ + err.message
    }
}

/// The line, if any, that the program prints at the end, and its exit code.
pub open spec fn ending(result: Result<i32, MainErrorView>) -> (Option<Seq<char>>, i32) {
    match result {
        Ok(code) => (None, code),
        Err(err) => (Some(error_line(err)), 1),
    }
}

/// The line, if any, that the program prints at the end on its error output, and its exit code.
pub fn conclude(result: &Result<i32, MainError>) -> (r: (Option<String>, i32))
    ensures
        (text::opt_text(r.0), r.1) == ending(code_view(*result)),
{
    match result {
        Ok(code) => (None, *code),
        Err(err) => {
            let start: &str = if err.is_human() { "error: " } else { "internal error: " };
            let mut line: String = start.to_owned();
            line.append(err.message.as_str());
            (Some(line), 1)
        },
    }
}

} // verus!
