use vstd::prelude::*;

use crate::source::{lemma_orphan_is_permanent, CancellationSource};
use vstd::std_specs::cmp::PartialEqSpec;

verus! {

/// The receiving side of a cancellation signal: a token observes the source
/// it was taken from, named by that source's identity.
pub struct CancellationToken {
    source: u64,
}

/// What polling a [`CancellationFuture`] gives: `Ready` once cancellation has
/// been requested, `Pending` before.
#[derive(PartialEq, Eq, Structural, Debug, Clone, Copy)]
pub enum Poll {
    Ready,
    Pending,
}

/// The request to wait for a token's cancellation, not yet turned into a
/// future.
pub struct CancellationAsync {
    source: u64,
}

/// A future that completes when the observed source requests cancellation,
/// or, if it counts an orphan as cancelled, when the source is dropped
/// without a signal.
pub struct CancellationFuture {
    source: u64,
    orphan_cancels: bool,
}

impl CancellationToken {
    /// The identity of the source this token observes.
    pub closed spec fn source(&self) -> u64 {
        self.source
    }

    /// A token that observes the source named `source`.
    pub fn new(source: u64) -> (tok: Self)
        ensures
            tok.source() == source,
    {
        CancellationToken { source }
    }

    /// The request to wait until this token is cancelled.
    pub fn cancellation(&mut self) -> (c: CancellationAsync)
        ensures
            *final(self) == *old(self),
            c.source() == old(self).source(),
    {
        CancellationAsync { source: self.source }
    }

    /// Whether the token's source has requested cancellation.
    pub fn is_cancelled<T>(&self, source: &CancellationSource<T>) -> (b: bool)
        requires
            source.id() == self.source(),
        ensures
            b == source.requested(),
            b == (source.output() is Some),
    {
        source.is_cancellation_requested()
    }

    /// Whether cancellation can still come to this token.
    pub fn can_be_cancelled<T>(&self, source: &CancellationSource<T>) -> (b: bool)
        requires
            source.id() == self.source(),
        ensures
            b == !source.requested(),
            b == (source.output() is None),
    {
        !source.is_cancellation_requested()
    }
}

impl Clone for CancellationToken {
    /// A token that observes the same source.
    fn clone(&self) -> (tok: Self)
        ensures
            tok == *self,
    {
        CancellationToken { source: self.source }
    }
}

impl PartialEq for CancellationToken {
    /// Two tokens are equal when they observe the same source.
    fn eq(&self, other: &Self) -> (b: bool) {
        self.source == other.source
    }
}

impl vstd::std_specs::cmp::PartialEqSpecImpl for CancellationToken {
    open spec fn obeys_eq_spec() -> bool {
        true
    }

    open spec fn eq_spec(&self, other: &Self) -> bool {
        self.source() == other.source()
    }
}

impl CancellationAsync {
    /// The identity of the source whose cancellation is awaited.
    pub closed spec fn source(&self) -> u64 {
        self.source
    }

    /// The future that waits for the cancellation; a source dropped without
    /// a signal counts as cancelled.
    pub fn into_future(self) -> (f: CancellationFuture)
        ensures
            f.source() == self.source(),
            f.orphan_cancels(),
    {
        CancellationFuture { source: self.source, orphan_cancels: true }
    }

    /// The future that waits for the cancellation, counting a source dropped
    /// without a signal as cancelled.
    pub fn orphan_as_cancelled(self) -> (f: CancellationFuture)
        ensures
            f.source() == self.source(),
            f.orphan_cancels(),
    {
        CancellationFuture { source: self.source, orphan_cancels: true }
    }

    /// The future that waits for the cancellation, treating a source dropped
    /// without a signal as one that never signals: the future stays pending.
    pub fn orphan_as_unsignaled(self) -> (f: CancellationFuture)
        ensures
            f.source() == self.source(),
            !f.orphan_cancels(),
    {
        CancellationFuture { source: self.source, orphan_cancels: false }
    }
}

impl CancellationFuture {
    /// The identity of the source whose cancellation is awaited.
    pub closed spec fn source(&self) -> u64 {
        self.source
    }

    /// Whether a source dropped without a signal counts as cancelled.
    pub closed spec fn orphan_cancels(&self) -> bool {
        self.orphan_cancels
    }

    /// The future is ready against `source`: cancellation was requested, or
    /// the source was dropped and an orphan counts as cancelled.
    pub open spec fn ready_against<T>(&self, source: &CancellationSource<T>) -> bool {
        source.requested() || (self.orphan_cancels() && source.orphaned())
    }

    /// Polls the future against the current state of its source: ready once
    /// cancellation has been requested, or once the source is dropped if an
    /// orphan counts as cancelled; pending otherwise.
    pub fn poll<T>(&mut self, source: &CancellationSource<T>) -> (p: Poll)
        requires
            source.id() == old(self).source(),
        ensures
            *final(self) == *old(self),
            p == (if old(self).ready_against(source) { Poll::Ready } else { Poll::Pending }),
            (p == Poll::Ready) <==> (source.output() is Some || (old(self).orphan_cancels()
                && source.orphaned())),
            source.output() is None && !source.orphaned() ==> p == Poll::Pending,
    {
        if source.is_cancellation_requested() || (self.orphan_cancels && source.is_orphaned()) {
            Poll::Ready
        } else {
            Poll::Pending
        }
    }
}

/// Dropping a source that has not signalled makes the futures of its tokens
/// ready when they count an orphan as cancelled, and leaves them pending
/// when they treat it as unsignaled; a source that has signalled keeps every
/// future ready.
pub proof fn lemma_orphan_readies_cancelling_futures<T>(
    s: CancellationSource<T>,
    f: CancellationFuture,
)
    requires
        f.source() == s.id(),
    ensures
        s.after_orphan().id() == f.source(),
        s.requested() ==> f.ready_against(&s.after_orphan()),
        !s.requested() ==> (f.ready_against(&s.after_orphan()) == f.orphan_cancels()),
{
    lemma_orphan_is_permanent(s, Seq::<T>::empty());
}

/// A cancellation future is ready exactly when its source's future has
/// produced an output, or when the source was dropped and the future counts
/// that as cancelled; whatever the identities, a future whose source has
/// neither produced an output nor been dropped is not ready, and one that
/// treats a drop as no signal is ready only once there is an output.
pub proof fn lemma_pending_until_output_or_drop<T>(f: CancellationFuture, s: CancellationSource<T>)
    ensures
        f.ready_against(&s) <==> (s.output() is Some || (f.orphan_cancels() && s.orphaned())),
        s.output() is None && !s.orphaned() ==> !f.ready_against(&s),
        !f.orphan_cancels() ==> (f.ready_against(&s) <==> s.output() is Some),
{
}

/// Token equality is an equivalence: it holds exactly when two tokens observe
/// the same source, so it is reflexive, symmetric and transitive.
pub proof fn lemma_token_eq_is_equivalence(a: CancellationToken, b: CancellationToken, c: CancellationToken)
    ensures
        a.eq_spec(&a),
        a.eq_spec(&b) == b.eq_spec(&a),
        a.eq_spec(&b) && b.eq_spec(&c) ==> a.eq_spec(&c),
        a.eq_spec(&b) <==> a.source() == b.source(),
{
}

/// Tokens taken from sources are equal exactly when the sources are the same
/// one: all children of a source are equal to one another, and to their
/// clones.
pub proof fn lemma_children_equal_iff_same_source<T, U>(
    s1: CancellationSource<T>,
    s2: CancellationSource<U>,
    t1: CancellationToken,
    t2: CancellationToken,
)
    requires
        t1.source() == s1.id(),
        t2.source() == s2.id(),
    ensures
        t1.eq_spec(&t2) <==> s1.id() == s2.id(),
{
}

} // verus!
