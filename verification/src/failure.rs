//! The failure value that travels in a fallible result, and what is known of
//! it.
//!
//! A failure is an `anyhow::Error`. It is described by two things: the
//! messages of its chain, the most recent annotation first and the root cause
//! last, and the stack trace that was captured when it was made, if one was.
//! Whether a trace is captured is up to the process, so nothing here says
//! that there is one or that there is none.
//!
//! Everything in this file but the spec functions with a body is taken on
//! trust from `anyhow` and `std`.

use std::fmt::{Debug, Write};
use std::sync::PoisonError;
use vstd::prelude::*;
use crate::text::{occurs_in, single_line};

verus! {

/// `anyhow::Error`, carried through as it is: nothing inside it is read
/// here.
#[verifier::external_type_specification]
#[verifier::external_body]
pub struct ExFailure(anyhow::Error);

/// `std::sync::PoisonError`, the failure of a lock whose holder panicked. It
/// carries what the lock protected.
#[verifier::external_type_specification]
#[verifier::external_body]
#[verifier::reject_recursive_types(T)]
pub struct ExPoisoned<T>(PoisonError<T>);

/// The messages of a failure's chain as `Display` prints them, the outermost
/// first: what `anyhow::Error::chain` walks through.
pub uninterp spec fn failure_chain(failure: anyhow::Error) -> Seq<Seq<char>>;

/// The text of the stack trace that a failure carries, where one was captured
/// when it was made: what `anyhow::Error::backtrace` prints.
pub uninterp spec fn failure_trace(failure: anyhow::Error) -> Option<Seq<char>>;

/// What `Debug` of `anyhow::Error` writes for a failure with the given chain
/// and stack trace.
pub uninterp spec fn debug_text(chain: Seq<Seq<char>>, trace: Option<Seq<char>>) -> Seq<char>;

/// The debug rendering of a failure.
pub open spec fn failure_rendering(failure: anyhow::Error) -> Seq<char> {
    debug_text(failure_chain(failure), failure_trace(failure))
}

/// What a rendering shows of the chain it was made from: it opens with the
/// outermost message, and every message that fits on one line stands in it
/// as it is.
pub open spec fn shows_chain(chain: Seq<Seq<char>>, text: Seq<char>) -> bool {
    &&& chain.len() >= 1
    &&& chain[0].is_prefix_of(text)
    &&& forall|i: int|
        0 <= i < chain.len() && single_line(#[trigger] chain[i]) ==> occurs_in(chain[i], text)
}

/// Makes a failure out of a message, by `anyhow::Error::msg`. The new failure
/// has no cause: its chain is the message alone.
#[verifier::external_body]
pub(crate) fn failure_from_message(message: String) -> (failure: anyhow::Error)
    ensures
        failure_chain(failure) == seq![message@],
{
    anyhow::Error::msg(message)
}

/// Puts an annotation in front of a failure's chain, by
/// `anyhow::Error::context`. The annotation becomes the outermost message,
/// the chain so far follows it, and the stack trace stays that of the
/// failure annotated.
#[verifier::external_body]
pub(crate) fn annotate(failure: anyhow::Error, annotation: &'static str) -> (annotated:
    anyhow::Error)
    ensures
        failure_chain(annotated) == seq![annotation@] + failure_chain(failure),
        failure_trace(annotated) == failure_trace(failure),
{
    failure.context(annotation)
}

/// Renders a failure with `Debug` of `anyhow::Error`, in its plain form. The
/// text is the outermost message, then the causes under the heading
/// "Caused by:", then the stack trace if there is one; a message of several
/// lines is indented line by line, so only a message of one line is sure to
/// stand in the text unchanged.
#[verifier::external_body]
pub(crate) fn render(failure: &anyhow::Error) -> (text: String)
    ensures
        text@ == debug_text(failure_chain(*failure), failure_trace(*failure)),
        shows_chain(failure_chain(*failure), text@),
{
    let mut text = String::new();
    let _ = write!(text, "{:?}", failure);
    text
}

/// `PoisonError::get_ref` lends the value that the poisoned lock protected.
/// Nothing is said of it.
pub assume_specification<T>[ PoisonError::<T>::get_ref ](poisoned: &PoisonError<T>) -> (inner: &T)
;

/// Describes a value by its own `Debug`, in the pretty form. What comes out
/// is up to the value's type, so nothing is promised of it.
#[verifier::external_body]
pub(crate) fn describe<U: Debug>(value: &U) -> (description: String) {
    let mut description = String::new();
    let _ = write!(description, "{:#?}", value);
    description
}

} // verus!
