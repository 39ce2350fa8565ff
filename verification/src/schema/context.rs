//! A breadcrumb that says what was being attempted when resolution failed.

use vstd::prelude::*;
use vstd::string::StringExecFns;
use crate::schema::error::SchemaError;
use crate::schema::render::{debug_str, debug_text, quoted, render};
use crate::schema::value::RawValue;

verus! {

/// The slot that holds at most one description of the failed step.
pub struct ErrorContext(pub Option<String>);

/// The description that ended up in an [`ErrorContext`].
#[derive(Debug, PartialEq, Eq)]
pub struct ContextError(pub Box<String>);

/// An error of resolution together with the description of the step in which
/// it arose, if one was recorded.
#[derive(Debug, PartialEq, Eq)]
pub struct ContextualError(pub SchemaError, pub Option<ContextError>);

/// What a step is working on: shown after the step's description.
pub enum ContextArg<'a> {
    /// A document value, shown by [`render`].
    Value(&'a RawValue),
    /// A name, shown between quotes.
    Name(&'a str),
}

/// The record of one resolution step: what it is currently doing, and on what.
pub struct CurrentErrorContext<'a> {
    pub wat: Option<&'static str>,
    pub arg: Option<ContextArg<'a>>,
}

impl View for ErrorContext {
    type V = Option<Seq<char>>;

    open spec fn view(&self) -> Option<Seq<char>> {
        match self.0 {
            Some(s) => Some(s@),
            None => None,
        }
    }
}

impl View for ContextError {
    type V = Seq<char>;

    open spec fn view(&self) -> Seq<char> {
        self.0@
    }
}

impl<'a> ContextArg<'a> {
    /// The text shown for the argument.
    pub open spec fn text(self) -> Seq<char> {
        match self {
            ContextArg::Value(v) => debug_text(v@),
            ContextArg::Name(n) => quoted(n@),
        }
    }
}

/// The one-line description made of a step's name and the text of its argument.
pub open spec fn describe(wat: Seq<char>, arg: Option<Seq<char>>) -> Seq<char> {
    match arg {
        Some(a) => wat + ": "@ + a,
        None => wat,
    }
}

/// Puts the description of a step together, given the text that its
/// argument is shown with.
pub fn describe_step(wat: &str, shown: Option<&str>) -> (text: String)
    ensures
        text@ == describe(
            wat@,
            match shown {
                Some(a) => Some(a@),
                None => None,
            },
        ),
{
    match shown {
        Some(a) => wat.to_owned().concat(": ").concat(a),
        None => wat.to_owned(),
    }
}

impl<'a> CurrentErrorContext<'a> {
    /// The description that this step would leave behind, if it has one.
    pub open spec fn trail(&self) -> Option<Seq<char>> {
        match self.wat {
            Some(wat) => Some(
                describe(
                    wat@,
                    match self.arg {
                        Some(arg) => Some(arg.text()),
                        None => None,
                    },
                ),
            ),
            None => None,
        }
    }

    /// Records what the step is doing now; an argument given before stays.
    pub fn currently(&mut self, wat: &'static str)
        ensures
            final(self).wat == Some(wat),
            final(self).arg == old(self).arg,
    {
        self.wat = Some(wat);
    }

    /// Records what the step is doing now, and on what.
    pub fn currently_with(&mut self, wat: &'static str, arg: ContextArg<'a>)
        ensures
            final(self).wat == Some(wat),
            final(self).arg == Some(arg),
    {
        self.wat = Some(wat);
        self.arg = Some(arg);
    }

    /// Ends a step that succeeded: nothing is left behind.
    pub fn defuse(self) {
    }

    /// Ends a step that failed: its description goes into the slot unless a
    /// deeper step has already left one there.
    pub fn release(self, ctx: &mut ErrorContext)
        ensures
            final(ctx)@ == match old(ctx)@ {
                Some(deeper) => Some(deeper),
                None => self.trail(),
            },
    {
        if ctx.0.is_some() {
            return ;
        }
        match self.wat {
            Some(wat) => {
                let s = match self.arg {
                    Some(ContextArg::Value(v)) => {
                        let shown = render(v);
                        describe_step(wat, Some(shown.as_str()))
                    },
                    Some(ContextArg::Name(n)) => {
                        let shown = debug_str(n);
                        describe_step(wat, Some(shown.as_str()))
                    },
                    None => describe_step(wat, None),
                };
                ctx.0 = Some(s);
            },
            None => {},
        }
    }
}

impl ErrorContext {
    /// An empty slot.
    pub fn new() -> (ctx: ErrorContext)
        ensures
            ctx@ is None,
    {
        ErrorContext(None)
    }

    /// Opens the record of a new step, with nothing recorded yet.
    pub fn current<'a>(&self) -> (step: CurrentErrorContext<'a>)
        ensures
            step.wat is None,
            step.arg is None,
    {
        CurrentErrorContext { wat: None, arg: None }
    }

    /// Takes the description out of the slot.
    pub fn take(self) -> (found: Option<ContextError>)
        ensures
            match found {
                Some(e) => self@ == Some(e@),
                None => self@ is None,
            },
    {
        match self.0 {
            Some(s) => Some(ContextError(Box::new(s))),
            None => None,
        }
    }
}

} // verus!
