//! The message filter: only signal messages whose payload signature is
//! outer-grouped are retained for diagnostic printing; every other message
//! is dropped silently.

use vstd::prelude::*;
use crate::signature::{balanced, has_outer_parentheses, outer_grouped};

verus! {

/// The kind of an inbound bus message.
#[derive(Clone, Copy, PartialEq, Eq, Structural, Debug)]
pub enum MessageKind {
    MethodCall,
    MethodReturn,
    Error,
    Signal,
}

/// A message is selected for printing exactly when it is a signal and its
/// payload signature is outer-grouped.
pub open spec fn selected(kind: MessageKind, sig: Seq<char>) -> bool {
    kind is Signal && outer_grouped(sig)
}

/// Decides whether a message of the given kind, with the given payload
/// signature, is passed to the printer.
pub fn should_inspect(kind: MessageKind, body_signature: &str) -> (r: bool)
    ensures
        r == selected(kind, body_signature@),
{
    match kind {
        MessageKind::Signal => has_outer_parentheses(body_signature),
        _ => false,
    }
}

/// Law: a message that is not a signal is never selected, whatever its
/// signature.
pub proof fn lemma_non_signal_never_selected(kind: MessageKind, sig: Seq<char>)
    requires
        !(kind is Signal),
    ensures
        !selected(kind, sig),
{
}

/// Law: a message whose signature is balanced but not outer-grouped is
/// never selected, whatever its kind.
pub proof fn lemma_balanced_not_outer_grouped_never_selected(kind: MessageKind, sig: Seq<char>)
    requires
        balanced(sig),
        !outer_grouped(sig),
    ensures
        !selected(kind, sig),
{
}

} // verus!
