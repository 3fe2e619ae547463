//! What one run does: the lines it shows and the text it copies, in order.
use vstd::prelude::*;

use crate::flags::Flags;
use crate::format::{format_of_token, DispatchError, UUIDFormat};
use crate::generate::{generate, generation_succeeds, identifier_text_of, Inputs};

verus! {

/// One step of a run, carried out in order by the caller.
#[derive(Clone, Debug, PartialEq, Eq)]
pub enum Action {
    /// Show a line on standard output.
    Show(String),
    /// Write the text to the system clipboard, then show the line that
    /// `clipboard_report` gives for the outcome.
    Copy(String),
}

/// The line shown when no format was given.
pub open spec fn not_used_text() -> Seq<char> {
    "<FORMAT> wasn't used..."@
}

/// The line shown after a successful clipboard write.
pub open spec fn copied_text() -> Seq<char> {
    "copy to clipboard!!"@
}

/// The line shown after a failed clipboard write.
pub open spec fn copy_failed_text() -> Seq<char> {
    "failed copy to clipboard"@
}

/// How many clipboard writes a sequence of actions makes.
pub open spec fn copy_count(acts: Seq<Action>) -> nat
    decreases acts.len(),
{
    if acts.len() == 0 {
        0
    } else {
        (if acts.last() is Copy { 1nat } else { 0nat }) + copy_count(acts.drop_last())
    }
}

/// The text that an action shows or copies.
pub open spec fn text_of(a: Action) -> Seq<char> {
    match a {
        Action::Show(x) => x@,
        Action::Copy(x) => x@,
    }
}

/// Whether `r` is a plan that a run may make for the given format token,
/// copy flag and inputs.
pub open spec fn planned(
    format: Option<Seq<char>>,
    copy: bool,
    inp: Inputs,
    r: Result<Seq<Action>, DispatchError>,
) -> bool {
    match format {
        None => {
            &&& r is Ok
            &&& r->Ok_0.len() == 1
            &&& r->Ok_0[0] is Show
            &&& text_of(r->Ok_0[0]) == not_used_text()
        },
        Some(t) => match format_of_token(t) {
            None => r == Err::<Seq<Action>, DispatchError>(DispatchError::UnknownFormat),
            Some(f) => if !generation_succeeds(f, inp) {
                r == Err::<Seq<Action>, DispatchError>(DispatchError::TimestampOutOfRange)
            } else {
                &&& r is Ok
                &&& r->Ok_0.len() == (if copy { 2int } else { 1int })
                &&& r->Ok_0[0] is Show
                &&& identifier_text_of(f, inp, text_of(r->Ok_0[0]))
                &&& copy ==> r->Ok_0[1] is Copy && text_of(r->Ok_0[1]) == text_of(r->Ok_0[0])
            },
        },
    }
}

/// The view of a plan's result: its actions as a sequence.
pub open spec fn plan_view(r: Result<Vec<Action>, DispatchError>) -> Result<
    Seq<Action>,
    DispatchError,
> {
    match r {
        Ok(v) => Ok(v@),
        Err(e) => Err(e),
    }
}

/// Plans a run: with no format, a note that none was used; with an unknown
/// token or an unusable time, an error; otherwise the identifier's line,
/// followed by a clipboard write of the same text when `flags.copy` is set.
pub fn plan(format: Option<&str>, flags: &Flags, inp: &Inputs) -> (r: Result<
    Vec<Action>,
    DispatchError,
>)
    ensures
        planned(
            match format {
                Some(t) => Some(t@),
                None => None,
            },
            flags.copy,
            *inp,
            plan_view(r),
        ),
{
    match format {
        None => {
            let m = "<FORMAT> wasn't used...".to_string();
            Ok(vec![Action::Show(m)])
        },
        Some(t) => {
            let f = match UUIDFormat::parse(t) {
                Ok(f) => f,
                Err(e) => return Err(e),
            };
            let s = match generate(f, inp) {
                Ok(s) => s,
                Err(e) => return Err(e),
            };
            let mut acts: Vec<Action> = Vec::new();
            if flags.copy {
                let c = s.clone();
                acts.push(Action::Show(s));
                acts.push(Action::Copy(c));
            } else {
                acts.push(Action::Show(s));
            }
            Ok(acts)
        },
    }
}

/// The line shown after a clipboard write, by its outcome.
pub fn clipboard_report(copied: bool) -> (r: String)
    ensures
        r@ == if copied {
            copied_text()
        } else {
            copy_failed_text()
        },
{
    if copied {
        "copy to clipboard!!".to_string()
    } else {
        "failed copy to clipboard".to_string()
    }
}

/// With no format given, a run shows only the note that none was used and
/// writes nothing to the clipboard, whatever the copy flag.
pub proof fn lemma_no_format_no_copy(copy: bool, inp: Inputs, acts: Seq<Action>)
    requires
        planned(None, copy, inp, Ok(acts)),
    ensures
        acts.len() == 1,
        acts[0] is Show,
        text_of(acts[0]) == not_used_text(),
        copy_count(acts) == 0,
{
    reveal_with_fuel(copy_count, 2);
    assert(acts.drop_last().len() == 0);
}

/// With the copy flag and a valid format, a run writes to the clipboard
/// exactly once, as its last step, after showing the identifier, and what it
/// writes is the identifier shown.
pub proof fn lemma_copy_once_after_show(t: Seq<char>, inp: Inputs, acts: Seq<Action>)
    requires
        format_of_token(t) is Some,
        planned(Some(t), true, inp, Ok(acts)),
    ensures
        copy_count(acts) == 1,
        acts.len() == 2,
        acts[0] is Show,
        identifier_text_of(format_of_token(t)->Some_0, inp, text_of(acts[0])),
        acts[1] is Copy,
        text_of(acts[1]) == text_of(acts[0]),
{
    reveal_with_fuel(copy_count, 3);
    assert(acts.drop_last().drop_last().len() == 0);
    assert(acts.drop_last().last() == acts[0]);
}

} // verus!
