//! The causal error that the library carries: `anyhow::Error`, seen as the
//! ordered sequence of the messages of its chain, outermost first.

use vstd::prelude::*;

verus! {

#[verifier::external_type_specification]
#[verifier::external_body]
pub struct ExAnyhowError(anyhow::Error);

/// Whether every layer of the error was made from a `String`, by
/// `anyhow::Error::msg` for the innermost one and `anyhow::Error::context` for
/// each other one. The text of such a chain is fixed by those strings; that of
/// any other error depends on the `Display` of whatever it wraps.
pub uninterp spec fn is_text_chain(e: anyhow::Error) -> bool;

/// The messages of an error's chain of causes, outermost first: the strings
/// that a chain made from strings alone (`is_text_chain`) was built from.
pub uninterp spec fn chain_of(e: anyhow::Error) -> Seq<Seq<char>>;

/// Relies on `anyhow::Error::msg`: the new error displays `message` and has
/// no source, so its chain is that one message.
#[verifier::external_body]
pub(crate) fn error_from_message(message: String) -> (r: anyhow::Error)
    ensures
        is_text_chain(r),
        chain_of(r) == seq![message@],
{
    anyhow::Error::msg(message)
}

/// Relies on `anyhow::Error::context`: the new error displays `context` and
/// its source is the wrapped error, so its chain is `context` followed by the
/// chain of `e`.
#[verifier::external_body]
pub(crate) fn error_with_context(e: anyhow::Error, context: String) -> (r: anyhow::Error)
    ensures
        is_text_chain(e) ==> is_text_chain(r),
        is_text_chain(e) ==> chain_of(r) == seq![context@] + chain_of(e),
{
    e.context(context)
}

/// Relies on `anyhow::Error::chain` and the `Display` of each error in it: the
/// chain yields the error itself and then each source in turn, so the list is
/// never empty; on a chain made from strings each text is its string.
#[verifier::external_body]
pub(crate) fn chain_messages(e: &anyhow::Error) -> (r: Vec<String>)
    ensures
        r@.len() >= 1,
        is_text_chain(*e) ==> r@.map_values(|m: String| m@) == chain_of(*e),
{
    e.chain().map(|cause| cause.to_string()).collect()
}

/// Relies on the alternate `Debug` rendering of `anyhow::Error`; nothing is
/// known of the text, which may depend on the environment (backtraces).
#[verifier::external_body]
pub(crate) fn debug_text(e: &anyhow::Error) -> (r: String) {
    format!("{:#?}", e)
}

/// The message and trace that a chain of messages splits into: the outermost
/// message, then the causes from the nearest to the root.
pub open spec fn flatten_chain(chain: Seq<Seq<char>>) -> (Seq<char>, Seq<Seq<char>>)
    recommends
        chain.len() >= 1,
{
    (chain[0], chain.drop_first())
}

/// The chain of messages of a message and its trace.
pub open spec fn unflatten_chain(message: Seq<char>, trace: Seq<Seq<char>>) -> Seq<Seq<char>> {
    seq![message] + trace
}

/// Splitting the chain built from a message and a trace gives back that
/// message and that trace, so rebuilding an error from a flattened chain and
/// flattening it again is the identity.
pub proof fn lemma_flatten_unflatten(message: Seq<char>, trace: Seq<Seq<char>>)
    ensures
        flatten_chain(unflatten_chain(message, trace)) == (message, trace),
        unflatten_chain(message, trace).len() == trace.len() + 1,
{
    assert(unflatten_chain(message, trace).drop_first() =~= trace);
}

} // verus!
