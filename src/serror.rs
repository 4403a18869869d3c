//! The flattened form of a causal error: a message and its trace of causes.

use crate::chain::{
    chain_messages, chain_of, is_text_chain, error_from_message, error_with_context, flatten_chain,
    unflatten_chain,
};
use vstd::prelude::*;

verus! {

/// An error chain in plain values: `error` is the outermost message, `trace`
/// the messages of its causes, from the nearest cause to the root cause.
pub struct Serror {
    pub error: String,
    pub trace: Vec<String>,
}

/// The messages of a list of strings.
pub open spec fn texts(v: Seq<String>) -> Seq<Seq<char>> {
    v.map_values(|m: String| m@)
}

impl Serror {
    /// The trace as messages.
    pub open spec fn trace_view(&self) -> Seq<Seq<char>> {
        texts(self.trace@)
    }

    /// The whole chain, outermost message first.
    pub open spec fn messages(&self) -> Seq<Seq<char>> {
        unflatten_chain(self.error@, self.trace_view())
    }

    /// Splits a chain of messages, outermost first: the first becomes
    /// `error`, the others, in order, become `trace`.
    pub fn from_messages(msgs: Vec<String>) -> (r: Serror)
        requires
            msgs@.len() >= 1,
        ensures
            (r.error@, r.trace_view()) == flatten_chain(texts(msgs@)),
    {
        let ghost all = msgs@;
        let mut msgs = msgs;
        let error = msgs.remove(0);
        assert(texts(msgs@) =~= texts(all).drop_first());
        Serror { error, trace: msgs }
    }

    /// Flattens a causal error: its own message becomes `error`, the messages
    /// of its causes, in the order of the chain, become `trace`.
    pub fn from_error(e: &anyhow::Error) -> (r: Serror)
        ensures
            exists|m: Seq<Seq<char>>|
                m.len() >= 1 && (r.error@, r.trace_view()) == #[trigger] flatten_chain(m),
            is_text_chain(*e) ==> (r.error@, r.trace_view()) == flatten_chain(chain_of(*e)),
    {
        let msgs = chain_messages(e);
        let ghost m = texts(msgs@);
        let r = Serror::from_messages(msgs);
        assert(m.len() >= 1 && (r.error@, r.trace_view()) == flatten_chain(m));
        r
    }
}

/// Rebuilds a generic causal error from a flattened chain: the root cause is
/// the innermost error, each earlier message of the trace is attached around
/// it as context, and `error` is the outermost layer.
pub fn serror_into_error(serror: Serror) -> (r: anyhow::Error)
    ensures
        is_text_chain(r),
        chain_of(r) == serror.messages(),
{
    let ghost all = serror.trace_view();
    let Serror { error, mut trace } = serror;
    let mut e = match trace.pop() {
        None => {
            assert(unflatten_chain(error@, all) =~= seq![error@]);
            return error_from_message(error);
        },
        Some(msg) => error_from_message(msg),
    };
    assert(chain_of(e) =~= all.subrange(trace@.len() as int, all.len() as int));
    while trace.len() > 0
        invariant
            all.len() >= 1,
            trace@.len() < all.len(),
            texts(trace@) == all.subrange(0, trace@.len() as int),
            is_text_chain(e),
            chain_of(e) == all.subrange(trace@.len() as int, all.len() as int),
        decreases trace.len(),
    {
        let ghost before = trace@;
        let msg = trace.pop().unwrap();
        assert(texts(trace@) =~= all.subrange(0, trace@.len() as int));
        assert(msg@ == all[trace@.len() as int]) by {
            assert(texts(before)[trace@.len() as int] == msg@);
        }
        e = error_with_context(e, msg);
        assert(chain_of(e) =~= all.subrange(trace@.len() as int, all.len() as int));
    }
    assert(all.subrange(0, all.len() as int) =~= all);
    e = error_with_context(e, error);
    assert(chain_of(e) =~= unflatten_chain(error@, all));
    e
}

} // verus!
