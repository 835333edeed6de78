use vstd::prelude::*;

use crate::token::CancellationToken;
use vstd::std_specs::cmp::PartialEqSpec;

verus! {

/// Hands out source identities: each call of [`CancellationSource::new`] on an
/// issuer takes the next one, so the sources made from one issuer are told
/// apart and their tokens never compare equal.
///
/// Distinctness holds among the sources of one issuer only: two issuers each
/// start at identity 0, so sources made from different issuers can share an
/// identity, and their tokens then compare equal. A program that needs all
/// of its sources told apart makes them all from a single issuer that it
/// keeps for its whole run.
pub struct SourceIssuer {
    next: u64,
}

impl SourceIssuer {
    /// The identity that the next source made from this issuer receives.
    /// Every identity issued before is smaller.
    pub closed spec fn next_id(&self) -> u64 {
        self.next
    }

    /// An issuer that has issued nothing yet.
    pub fn new() -> (issuer: Self)
        ensures
            issuer.next_id() == 0,
    {
        SourceIssuer { next: 0 }
    }

    /// Whether the issuer can still issue an identity.
    pub fn can_issue(&self) -> (b: bool)
        ensures
            b == (self.next_id() < u64::MAX),
    {
        self.next < u64::MAX
    }
}

/// The sending side of a cancellation signal.
///
/// `id` names the source: every token taken from it carries it. `output` is
/// what the source's future produced, once it has produced it; cancellation
/// is requested from that moment on, and for good. `orphaned` says that the
/// source was dropped before its future produced anything: no output can
/// come after that.
pub struct CancellationSource<T> {
    id: u64,
    output: Option<T>,
    orphaned: bool,
}

impl<T> CancellationSource<T> {
    /// The identity of the source, shared by all tokens taken from it.
    pub closed spec fn id(&self) -> u64 {
        self.id
    }

    /// What the source's future produced, if it has completed.
    pub closed spec fn output(&self) -> Option<T> {
        self.output
    }

    /// The source was dropped before its future produced anything.
    pub closed spec fn orphaned(&self) -> bool {
        self.orphaned
    }

    /// Cancellation has been requested of this source: its future produced
    /// its output.
    pub open spec fn requested(&self) -> bool {
        self.output() is Some
    }

    /// The source after its future has produced `output`: the first output
    /// is kept, and a dropped source takes none, so a source that has already
    /// requested cancellation, or was dropped, stays as it is.
    pub closed spec fn after_complete(self, output: T) -> Self {
        if self.requested() || self.orphaned() {
            self
        } else {
            CancellationSource { id: self.id, output: Some(output), orphaned: false }
        }
    }

    /// The source after it has been dropped: a source that had requested
    /// cancellation keeps its output, one that had not becomes orphaned.
    pub closed spec fn after_orphan(self) -> Self {
        if self.requested() {
            self
        } else {
            CancellationSource { id: self.id, output: None, orphaned: true }
        }
    }

    /// A source whose future has not completed yet, named by the next
    /// identity of `issuer`.
    pub fn new(issuer: &mut SourceIssuer) -> (s: Self)
        requires
            old(issuer).next_id() < u64::MAX,
        ensures
            s.id() == old(issuer).next_id(),
            final(issuer).next_id() == old(issuer).next_id() + 1,
            s.output() is None,
            !s.orphaned(),
            !s.requested(),
    {
        let id = issuer.next;
        issuer.next = issuer.next + 1;
        CancellationSource { id, output: None, orphaned: false }
    }

    /// Whether cancellation has been requested, that is, whether the
    /// source's future has completed.
    pub fn is_cancellation_requested(&self) -> (b: bool)
        ensures
            b == self.requested(),
            b == (self.output() is Some),
    {
        self.output.is_some()
    }

    /// Whether cancellation can still come: the future has not completed.
    pub fn can_be_cancelled(&self) -> (b: bool)
        ensures
            b == !self.requested(),
            b == (self.output() is None),
    {
        self.output.is_none()
    }

    /// Whether the source was dropped before its future produced anything.
    pub fn is_orphaned(&self) -> (b: bool)
        ensures
            b == self.orphaned(),
    {
        self.orphaned
    }

    /// A token that observes this source.
    pub fn child_token(&self) -> (tok: CancellationToken)
        ensures
            tok.source() == self.id(),
    {
        CancellationToken::new(self.id)
    }

    /// Records that the source's future produced `output`.
    ///
    /// The first output is kept, and a dropped source takes none. Returns
    /// whether this call requested cancellation.
    pub fn complete(&mut self, output: T) -> (first: bool)
        ensures
            first == (!old(self).requested() && !old(self).orphaned()),
            first == (old(self).output() is None && !old(self).orphaned()),
            final(self).id() == old(self).id(),
            final(self).orphaned() == old(self).orphaned(),
            final(self).output() == (if first { Some(output) } else { old(self).output() }),
            *final(self) == old(self).after_complete(output),
    {
        if self.output.is_none() && !self.orphaned {
            self.output = Some(output);
            true
        } else {
            false
        }
    }

    /// Takes in the outcome of a peek that became ready: with an output the
    /// source's future completed with it, without one the source was dropped
    /// before its future produced anything.
    pub fn on_ready_peek(&mut self, output: Option<T>)
        ensures
            final(self).id() == old(self).id(),
            output is Some && !old(self).orphaned() ==> final(self).requested(),
            output is None && !old(self).requested() ==> final(self).orphaned(),
            match output {
                Some(x) => *final(self) == old(self).after_complete(x),
                None => *final(self) == old(self).after_orphan(),
            },
    {
        match output {
            Some(x) => {
                self.complete(x);
            },
            None => self.orphan(),
        }
    }

    /// Records that the source was dropped. If cancellation had not been
    /// requested, the source becomes orphaned: its tokens' futures, when
    /// they count an orphan as cancelled, become ready.
    pub fn orphan(&mut self)
        ensures
            final(self).id() == old(self).id(),
            final(self).output() == old(self).output(),
            final(self).orphaned() == (old(self).orphaned() || !old(self).requested()),
            *final(self) == old(self).after_orphan(),
    {
        if self.output.is_none() {
            self.orphaned = true;
        }
    }
}

/// A source has requested cancellation exactly when its future has produced
/// an output, whatever its identity: a source whose future has produced
/// nothing has not requested cancellation, and one with an output has.
pub proof fn lemma_requested_iff_output<T>(s: CancellationSource<T>)
    ensures
        s.requested() <==> s.output() is Some,
        s.output() is None ==> !s.requested(),
{
}

/// Every source made from an issuer starts pending, whatever identity it
/// takes: it has not requested cancellation, is not dropped, and its first
/// completion requests cancellation with the output given.
pub proof fn lemma_new_source_is_pending<T>(s: CancellationSource<T>, output: T)
    requires
        s.output() is None,
        !s.orphaned(),
    ensures
        !s.requested(),
        s.after_complete(output).requested(),
        s.after_complete(output).output() == Some(output),
        s.after_complete(output).id() == s.id(),
{
}

/// Sources made one after the other from one issuer have distinct
/// identities, so no token of the one equals a token of the other: a source
/// made earlier has an identity below the issuer's next one, and the next
/// source made takes that next one.
pub proof fn lemma_issued_sources_are_distinct<T, U>(
    issuer: SourceIssuer,
    earlier: CancellationSource<T>,
    later: CancellationSource<U>,
    t_earlier: CancellationToken,
    t_later: CancellationToken,
)
    requires
        earlier.id() < issuer.next_id(),
        later.id() == issuer.next_id(),
        t_earlier.source() == earlier.id(),
        t_later.source() == later.id(),
    ensures
        earlier.id() != later.id(),
        !t_earlier.eq_spec(&t_later),
{
}

/// The source after its future has produced each of `outputs` in turn.
pub closed spec fn after_outputs<T>(s: CancellationSource<T>, outputs: Seq<T>) -> CancellationSource<T>
    decreases outputs.len(),
{
    if outputs.len() == 0 {
        s
    } else {
        after_outputs(s.after_complete(outputs[0]), outputs.drop_first())
    }
}

/// Cancellation, once requested, is never withdrawn, and a source keeps its
/// identity: whatever outputs its future is said to produce, the source
/// keeps the first output it recorded, and requests cancellation from the
/// first one on, unless it was dropped before.
pub proof fn lemma_cancellation_is_permanent<T>(s: CancellationSource<T>, outputs: Seq<T>)
    ensures
        after_outputs(s, outputs).id() == s.id(),
        after_outputs(s, outputs).orphaned() == s.orphaned(),
        s.requested() || s.orphaned() ==> after_outputs(s, outputs) == s,
        outputs.len() > 0 && !s.orphaned() ==> after_outputs(s, outputs).requested(),
        after_outputs(s, outputs).output() == (if s.requested() || s.orphaned() {
            s.output()
        } else if outputs.len() > 0 {
            Some(outputs[0])
        } else {
            None
        }),
    decreases outputs.len(),
{
    if outputs.len() > 0 {
        lemma_cancellation_is_permanent(s.after_complete(outputs[0]), outputs.drop_first());
    }
}

/// Completing a source signals every token taken from it: tokens taken
/// before the completion still name the source, and the source, unless it
/// was dropped, has requested cancellation, so each of them now reports
/// cancelled.
pub proof fn lemma_complete_signals_all_children<T>(
    s: CancellationSource<T>,
    tokens: Seq<CancellationToken>,
    output: T,
)
    requires
        !s.orphaned(),
        forall|i: int| 0 <= i < tokens.len() ==> #[trigger] tokens[i].source() == s.id(),
    ensures
        s.after_complete(output).requested(),
        forall|i: int|
            0 <= i < tokens.len() ==> #[trigger] tokens[i].source() == s.after_complete(output).id(),
{
}

/// A completion that comes after cancellation was requested changes nothing.
pub proof fn lemma_complete_after_request<T>(s: CancellationSource<T>, output: T)
    requires
        s.requested(),
    ensures
        s.after_complete(output) == s,
{
}

/// Dropping a source keeps its identity, so its tokens still name it; a
/// source dropped without a signal is orphaned for good (no completion
/// changes it afterwards), and a source that had signalled keeps its signal.
pub proof fn lemma_orphan_is_permanent<T>(s: CancellationSource<T>, outputs: Seq<T>)
    ensures
        s.after_orphan().id() == s.id(),
        s.after_orphan().output() == s.output(),
        s.after_orphan().orphaned() == (s.orphaned() || !s.requested()),
        s.after_orphan().requested() || s.after_orphan().orphaned(),
        after_outputs(s.after_orphan(), outputs) == s.after_orphan(),
{
    lemma_cancellation_is_permanent(s.after_orphan(), outputs);
}

} // verus!
