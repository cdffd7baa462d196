//! The values exchanged with the execution bridge.
//!
//! An operation that needs the radio is answered in steps. Each step either
//! names the work that the bridge has to perform next, or closes the operation
//! with the value handed to the caller. A failure never travels further than
//! the reply: the caller receives the weakest value of the operation (`false`,
//! an empty sequence) and the reason stands beside it as a diagnostic.

use vstd::prelude::*;
use crate::error::{BleError, BleErrorView};

verus! {

/// The end of an operation: the value for the caller and, where something
/// went wrong on the way, the reason.
#[derive(Debug, PartialEq, Eq)]
pub struct Reply<R> {
    pub value: R,
    pub diagnostic: Option<BleError>,
}

/// One step of an operation.
#[derive(Debug, PartialEq, Eq)]
pub enum Step<A, R> {
    /// The bridge has to perform this action and report its outcome.
    Perform(A),
    /// The operation is over.
    Done(Reply<R>),
}

/// Mathematical counterpart of [`Reply`].
pub struct ReplyView<V> {
    pub value: V,
    pub diagnostic: Option<BleErrorView>,
}

/// Mathematical counterpart of [`Step`].
pub enum StepView<AV, V> {
    Perform(AV),
    Done(ReplyView<V>),
}

/// The view of an optional diagnostic.
pub open spec fn diagnostic_view(diagnostic: Option<BleError>) -> Option<BleErrorView> {
    match diagnostic {
        Some(e) => Some(e@),
        None => None,
    }
}

impl<R: DeepView> View for Reply<R> {
    type V = ReplyView<R::V>;

    open spec fn view(&self) -> ReplyView<R::V> {
        ReplyView { value: self.value.deep_view(), diagnostic: diagnostic_view(self.diagnostic) }
    }
}

impl<A: DeepView, R: DeepView> View for Step<A, R> {
    type V = StepView<A::V, R::V>;

    open spec fn view(&self) -> StepView<A::V, R::V> {
        match self {
            Step::Perform(action) => StepView::Perform(action.deep_view()),
            Step::Done(reply) => StepView::Done(reply@),
        }
    }
}

impl<V> ReplyView<V> {
    /// A reply without a diagnostic.
    pub open spec fn clean(value: V) -> ReplyView<V> {
        ReplyView { value, diagnostic: None }
    }

    /// A reply that carries the reason of a failure.
    pub open spec fn failed(value: V, reason: BleErrorView) -> ReplyView<V> {
        ReplyView { value, diagnostic: Some(reason) }
    }
}

impl<AV, V> StepView<AV, V> {
    /// The step that closes an operation without a diagnostic.
    pub open spec fn done(value: V) -> StepView<AV, V> {
        StepView::Done(ReplyView::clean(value))
    }

    /// The step that closes an operation with the reason of its failure.
    pub open spec fn refused(value: V, reason: BleErrorView) -> StepView<AV, V> {
        StepView::Done(ReplyView::failed(value, reason))
    }
}

impl<R: DeepView> Reply<R> {
    /// Closes an operation that went through.
    pub fn clean(value: R) -> (reply: Reply<R>)
        ensures
            reply.value == value,
            reply.diagnostic is None,
            reply@ == ReplyView::clean(value.deep_view()),
    {
        Reply { value, diagnostic: None }
    }

    /// Closes an operation with the value for the caller and the reason why
    /// something went wrong.
    pub fn failed(value: R, reason: BleError) -> (reply: Reply<R>)
        ensures
            reply.value == value,
            reply.diagnostic == Some(reason),
            reply@ == ReplyView::failed(value.deep_view(), reason@),
    {
        Reply { value, diagnostic: Some(reason) }
    }
}

impl<A: DeepView, R: DeepView> Step<A, R> {
    /// The step that asks the bridge for an action.
    pub fn perform(action: A) -> (step: Step<A, R>)
        ensures
            step@ == StepView::<A::V, R::V>::Perform(action.deep_view()),
    {
        Step::Perform(action)
    }

    /// The step that closes an operation that went through.
    pub fn done(value: R) -> (step: Step<A, R>)
        ensures
            step@ == StepView::<A::V, R::V>::done(value.deep_view()),
    {
        Step::Done(Reply::clean(value))
    }

    /// The step that closes an operation before the bridge is asked for
    /// anything.
    pub fn refused(value: R, reason: BleError) -> (step: Step<A, R>)
        ensures
            step@ == StepView::<A::V, R::V>::refused(value.deep_view(), reason@),
    {
        Step::Done(Reply::failed(value, reason))
    }
}

/// A byte vector without bytes, with what its deep view is.
pub fn no_bytes() -> (bytes: Vec<u8>)
    ensures
        bytes.deep_view() == Seq::<u8>::empty(),
{
    let bytes: Vec<u8> = Vec::new();
    proof {
        lemma_bytes_deep_view(bytes);
    }
    bytes
}

/// The deep view of a byte vector is the sequence of its bytes.
pub proof fn lemma_bytes_deep_view(bytes: Vec<u8>)
    ensures
        bytes.deep_view() == bytes@,
{
    assert(bytes.deep_view() =~= bytes@);
}

} // verus!
