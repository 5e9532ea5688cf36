//! The elicitation coordinator: process-wide rendezvous point that
//! enforces at most one outstanding interactive request at a time and
//! routes its answer back to the session that registered it.
//!
//! The coordinator itself never touches a connection. A sink is an
//! opaque session identifier; every operation returns the delivery
//! that the caller must perform over the owning session's channel.

use vstd::prelude::*;

use crate::ElicitationAction;

verus! {

/// The answer to one elicitation request: the user's action and,
/// for an accepting answer, the content of the filled-in fields.
#[derive(Debug, PartialEq)]
pub struct ElicitationResult {
    pub action: ElicitationAction,
    pub content: Vec<(String, String)>,
}

/// Mathematical model of an [`ElicitationResult`].
#[verifier::ext_equal]
pub struct ResultModel {
    pub action: ElicitationAction,
    pub content: Seq<(Seq<char>, Seq<char>)>,
}

impl ElicitationResult {
    /// Model of this result: the action and the content pairs as sequences.
    pub open spec fn model(&self) -> ResultModel {
        ResultModel { action: self.action, content: self.content.deep_view() }
    }
}

/// The model of the cancellation answer the coordinator sends to a
/// superseded session: action `Cancel`, empty content.
pub open spec fn cancel_model() -> ResultModel {
    ResultModel { action: ElicitationAction::Cancel, content: Seq::empty() }
}

impl ElicitationResult {
    /// The cancellation answer: action `Cancel`, empty content.
    pub fn cancel() -> (r: ElicitationResult)
        ensures
            r.model() == cancel_model(),
    {
        let r = ElicitationResult { action: ElicitationAction::Cancel, content: Vec::new() };
        proof {
            assert(r.model().content =~= cancel_model().content);
            assert(r.model() =~= cancel_model());
        }
        r
    }
}

/// One answer that the caller must now deliver: the result to send and
/// the sink (session) that owns it.
pub struct Delivery {
    pub sink: u64,
    pub result: ElicitationResult,
}

/// Error reported when an answer could not be handed to its session
/// because the underlying channel had already closed. Coordinator
/// state is reset regardless.
#[derive(Clone, Copy, Debug, PartialEq, Eq, Structural)]
pub struct DeliveryError;

/// Process-wide pending-elicitation state: a flag and, when the flag
/// is set, the sink that owns the exclusive right to receive the next
/// answer.
pub struct Coordinator {
    pending: bool,
    sink: Option<u64>,
}

/// Effect of one `register` call on the installed sink: the new sink
/// is installed, and whatever was installed before is cancelled.
pub open spec fn register_step(installed: Option<u64>, new_sink: u64) -> (Option<u64>, Option<
    u64,
>) {
    (Some(new_sink), installed)
}

impl Coordinator {
    /// Invariant: the pending flag is set exactly when a sink is installed.
    pub closed spec fn wf(&self) -> bool {
        self.pending == self.sink is Some
    }

    /// Whether an elicitation is currently awaiting an answer.
    pub closed spec fn spec_pending(&self) -> bool {
        self.pending
    }

    /// The installed sink, if any.
    pub closed spec fn installed(&self) -> Option<u64> {
        self.sink
    }

    /// A fresh coordinator: idle, no sink installed.
    pub fn new() -> (r: Coordinator)
        ensures
            r.wf(),
            !r.spec_pending(),
            r.installed() is None,
    {
        Coordinator { pending: false, sink: None }
    }

    /// Whether an elicitation is currently awaiting an answer.
    pub fn pending(&self) -> (r: bool)
        ensures
            r == self.spec_pending(),
    {
        self.pending
    }

    /// Install `new_sink` as the owner of the next answer. If a prior
    /// request was still pending, its sink is first handed a `Cancel`
    /// answer: the returned delivery, which the caller must perform.
    pub fn register(&mut self, new_sink: u64) -> (cancelled: Option<Delivery>)
        requires
            old(self).wf(),
        ensures
            final(self).wf(),
            final(self).spec_pending(),
            (final(self).installed(), cancelled_sink(cancelled)) == register_step(
                old(self).installed(),
                new_sink,
            ),
            cancelled matches Some(d) ==> d.result.model() == cancel_model(),
    {
        let prior = self.sink.take();
        self.sink = Some(new_sink);
        self.pending = true;
        match prior {
            Some(s) => Some(Delivery { sink: s, result: ElicitationResult::cancel() }),
            None => None,
        }
    }

    /// Deliver `result` to the currently installed sink. When no sink
    /// is installed there is nothing to answer and the call is a no-op
    /// success. The sink is cleared and the pending flag dropped in
    /// every case, so one answer is handed out at most once.
    pub fn complete(&mut self, result: ElicitationResult) -> (delivery: Option<Delivery>)
        requires
            old(self).wf(),
        ensures
            final(self).wf(),
            !final(self).spec_pending(),
            final(self).installed() is None,
            delivery matches Some(d) ==> old(self).installed() == Some(d.sink) && d.result.model()
                == result.model(),
            delivery is Some <==> old(self).spec_pending(),
    {
        self.pending = false;
        match self.sink.take() {
            Some(s) => Some(Delivery { sink: s, result }),
            None => None,
        }
    }

    /// Cancel the pending elicitation, if there is one: equivalent to
    /// `complete` with a `Cancel` answer. When nothing is pending this
    /// is a no-op and the coordinator is left untouched.
    pub fn cancel_if_pending(&mut self) -> (delivery: Option<Delivery>)
        requires
            old(self).wf(),
        ensures
            final(self).wf(),
            !final(self).spec_pending(),
            final(self).installed() is None,
            delivery matches Some(d) ==> old(self).installed() == Some(d.sink) && d.result.model()
                == cancel_model(),
            delivery is Some <==> old(self).spec_pending(),
            !old(self).spec_pending() ==> *final(self) == *old(self) && delivery is None,
    {
        if self.pending {
            self.complete(ElicitationResult::cancel())
        } else {
            None
        }
    }
}

/// The sink that a `register` call cancelled, if any.
pub open spec fn cancelled_sink(d: Option<Delivery>) -> Option<u64> {
    match d {
        Some(d) => Some(d.sink),
        None => None,
    }
}

/// Fold `delivered` into the outcome the shell reports: delivery was
/// owed and the channel had closed — the only failure — or success.
pub fn delivery_outcome(delivered: bool, channel_open: bool) -> (r: Result<(), DeliveryError>)
    ensures
        r is Err <==> delivered && !channel_open,
{
    if delivered && !channel_open {
        Err(DeliveryError)
    } else {
        Ok(())
    }
}

/// The sink installed after a sequence of `register` calls, starting
/// from `installed`.
pub open spec fn installed_after(installed: Option<u64>, sinks: Seq<u64>) -> Option<u64>
    decreases sinks.len(),
{
    if sinks.len() == 0 {
        installed
    } else {
        installed_after(register_step(installed, sinks.first()).0, sinks.drop_first())
    }
}

/// The sinks handed a `Cancel` answer during a sequence of `register`
/// calls, in order, starting from `installed`.
pub open spec fn cancelled_during(installed: Option<u64>, sinks: Seq<u64>) -> Seq<u64>
    decreases sinks.len(),
{
    if sinks.len() == 0 {
        Seq::empty()
    } else {
        let (next, cancelled) = register_step(installed, sinks.first());
        match cancelled {
            Some(s) => seq![s] + cancelled_during(next, sinks.drop_first()),
            None => cancelled_during(next, sinks.drop_first()),
        }
    }
}

/// Law: for every sequence of `register` calls without an interleaved
/// `complete`, starting idle, exactly the last sink is installed and
/// the earlier sinks each received exactly one `Cancel`, in order.
pub proof fn lemma_register_sequence(sinks: Seq<u64>)
    requires
        sinks.len() > 0,
    ensures
        installed_after(None, sinks) == Some(sinks.last()),
        cancelled_during(None, sinks) =~= sinks.drop_last(),
{
    lemma_register_sequence_from(None, sinks);
    assert(cancelled_during(None, sinks) =~= sinks.drop_last());
}

/// The general form of the law, from any starting state: the last sink
/// is installed, and the cancelled sinks are the starting sink (when
/// one was installed) followed by all but the last registered sink.
pub proof fn lemma_register_sequence_from(installed: Option<u64>, sinks: Seq<u64>)
    requires
        sinks.len() > 0,
    ensures
        installed_after(installed, sinks) == Some(sinks.last()),
        cancelled_during(installed, sinks) =~= opt_as_seq(installed) + sinks.drop_last(),
    decreases sinks.len(),
{
    let rest = sinks.drop_first();
    if sinks.len() == 1 {
        assert(sinks.last() == sinks.first());
        assert(cancelled_during(Some(sinks.first()), rest) =~= Seq::<u64>::empty());
        assert(sinks.drop_last() =~= Seq::<u64>::empty());
        assert(cancelled_during(installed, sinks) =~= opt_as_seq(installed) + sinks.drop_last());
    } else {
        lemma_register_sequence_from(Some(sinks.first()), rest);
        assert(rest.last() == sinks.last());
        assert(cancelled_during(installed, sinks) =~= opt_as_seq(installed) + cancelled_during(
            Some(sinks.first()),
            rest,
        ));
        assert(seq![sinks.first()] + rest.drop_last() =~= sinks.drop_last());
        assert(cancelled_during(installed, sinks) =~= opt_as_seq(installed) + sinks.drop_last());
    }
}

/// An optional value as a sequence of zero or one elements.
pub open spec fn opt_as_seq(v: Option<u64>) -> Seq<u64> {
    match v {
        Some(s) => seq![s],
        None => Seq::empty(),
    }
}

} // verus!
