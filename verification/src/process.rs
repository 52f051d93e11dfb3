//! The lifetime of the native library's process-wide state.
//!
//! The native library is initialized once for each guard that is made and
//! finalized once for each guard that is given back. The ledger counts both,
//! so that whoever holds the process-wide lock knows how many initializations
//! are still open.

use vstd::prelude::*;

verus! {

/// A token for one initialization of the native library. It carries no data:
/// what counts is that it was made and that it is given back.
#[derive(Debug)]
pub struct GlslangProcess {
    _private: (),
}

impl Default for GlslangProcess {
    fn default() -> (r: Self) {
        GlslangProcess { _private: () }
    }
}

/// What happens to the process-wide state, one event at a time: the lock
/// lets no two of them overlap.
#[derive(Clone, Copy, Debug, PartialEq, Eq, Structural)]
pub enum GuardEvent {
    /// A guard was made: the native library was initialized.
    Construct,
    /// A guard was given back: the native library was finalized.
    Destroy,
}

/// How often an event occurs in a history.
pub open spec fn occurrences(history: Seq<GuardEvent>, event: GuardEvent) -> nat
    decreases history.len(),
{
    if history.len() == 0 {
        0
    } else {
        occurrences(history.drop_last(), event) + if history.last() == event {
            1nat
        } else {
            0nat
        }
    }
}

/// The initializations that are open after a history: one more for each
/// guard made, one less for each guard given back.
pub open spec fn open_after(history: Seq<GuardEvent>) -> int
    decreases history.len(),
{
    if history.len() == 0 {
        0
    } else {
        open_after(history.drop_last()) + match history.last() {
            GuardEvent::Construct => 1int,
            GuardEvent::Destroy => -1int,
        }
    }
}

/// No guard is given back before it was made: at no point of the history
/// were more guards given back than made.
pub open spec fn orderly(history: Seq<GuardEvent>) -> bool {
    forall|n: int| 0 <= n <= history.len() ==> open_after(#[trigger] history.take(n)) >= 0
}

/// The ledger of the process-wide state.
pub struct ProcessLedger {
    open: u64,
    history: Ghost<Seq<GuardEvent>>,
}

impl View for ProcessLedger {
    type V = Seq<GuardEvent>;

    closed spec fn view(&self) -> Seq<GuardEvent> {
        self.history@
    }
}

impl ProcessLedger {
    #[verifier::type_invariant]
    spec fn well_formed(self) -> bool {
        &&& self.open as int == open_after(self.history@)
        &&& orderly(self.history@)
    }

    /// The number of initializations that are open.
    pub closed spec fn spec_open(self) -> u64 {
        self.open
    }

    /// The ledger of a process in which nothing has happened yet.
    pub fn new() -> (r: Self)
        ensures
            r@ == Seq::<GuardEvent>::empty(),
            r.spec_open() == 0,
    {
        proof {
            assert forall|n: int| 0 <= n <= 0 implies open_after(
                #[trigger] Seq::<GuardEvent>::empty().take(n),
            ) >= 0 by {
                assert(Seq::<GuardEvent>::empty().take(n) =~= Seq::<GuardEvent>::empty());
            }
        }
        ProcessLedger { open: 0, history: Ghost(Seq::empty()) }
    }

    /// The number of initializations that are open: the guards made less the
    /// guards given back.
    pub fn outstanding(&self) -> (r: u64)
        ensures
            r == self.spec_open(),
            r as int == open_after(self@),
            r as int == occurrences(self@, GuardEvent::Construct) - occurrences(
                self@,
                GuardEvent::Destroy,
            ),
            orderly(self@),
    {
        proof {
            use_type_invariant(self);
            lemma_open_is_difference(self@);
        }
        self.open
    }

    /// Whether every initialization was matched by a finalization.
    pub fn is_balanced(&self) -> (r: bool)
        ensures
            r == (occurrences(self@, GuardEvent::Construct) == occurrences(
                self@,
                GuardEvent::Destroy,
            )),
            r == (self.spec_open() == 0),
    {
        self.outstanding() == 0
    }

    /// Records that the native library is initialized once more, and gives
    /// the guard for it. The caller holds the process-wide lock and makes the
    /// native call.
    pub fn acquire(&mut self) -> (guard: GlslangProcess)
        requires
            old(self).spec_open() < u64::MAX,
        ensures
            final(self)@ == old(self)@.push(GuardEvent::Construct),
            final(self).spec_open() == old(self).spec_open() + 1,
    {
        let ghost before = self.history@;
        let ghost after = before.push(GuardEvent::Construct);
        proof {
            use_type_invariant(&*self);
            lemma_push_keeps_order(before, GuardEvent::Construct);
        }
        *self = ProcessLedger { open: self.open + 1, history: Ghost(after) };
        GlslangProcess { _private: () }
    }

    /// Takes a guard back and records that the native library is finalized
    /// once. The caller holds the process-wide lock and makes the native
    /// call. A guard can only be taken back while an initialization is open.
    pub fn release(&mut self, guard: GlslangProcess)
        requires
            old(self).spec_open() > 0,
        ensures
            final(self)@ == old(self)@.push(GuardEvent::Destroy),
            final(self).spec_open() == old(self).spec_open() - 1,
    {
        let ghost before = self.history@;
        let ghost after = before.push(GuardEvent::Destroy);
        proof {
            use_type_invariant(&*self);
            lemma_push_keeps_order(before, GuardEvent::Destroy);
        }
        *self = ProcessLedger { open: self.open - 1, history: Ghost(after) };
    }
}

/// One more event changes the number of open initializations by one, and
/// keeps the history orderly unless it gives back a guard that was not made.
pub proof fn lemma_push_keeps_order(history: Seq<GuardEvent>, event: GuardEvent)
    requires
        orderly(history),
        event == GuardEvent::Destroy ==> open_after(history) > 0,
    ensures
        open_after(history.push(event)) == open_after(history) + match event {
            GuardEvent::Construct => 1int,
            GuardEvent::Destroy => -1int,
        },
        orderly(history.push(event)),
{
    let longer = history.push(event);
    assert(longer.drop_last() =~= history);
    assert(history.take(history.len() as int) =~= history);
    assert(open_after(history.take(history.len() as int)) >= 0);
    assert forall|n: int| 0 <= n <= longer.len() implies open_after(#[trigger] longer.take(n))
        >= 0 by {
        if n < longer.len() {
            assert(longer.take(n) =~= history.take(n));
            assert(open_after(history.take(n)) >= 0);
        } else {
            assert(longer.take(n) =~= longer);
        }
    }
}

/// The open initializations are the guards made less the guards given back.
pub proof fn lemma_open_is_difference(history: Seq<GuardEvent>)
    ensures
        open_after(history) == occurrences(history, GuardEvent::Construct) - occurrences(
            history,
            GuardEvent::Destroy,
        ),
        occurrences(history, GuardEvent::Construct) + occurrences(history, GuardEvent::Destroy)
            == history.len(),
    decreases history.len(),
{
    if history.len() > 0 {
        lemma_open_is_difference(history.drop_last());
    }
}

/// Whatever the order in which the guards of a process are made and given
/// back, once as many were given back as were made no initialization is
/// open: the count of the native library is back where it started.
pub proof fn lemma_balanced_lifecycle(history: Seq<GuardEvent>, guards: nat)
    requires
        occurrences(history, GuardEvent::Construct) == guards,
        occurrences(history, GuardEvent::Destroy) == guards,
    ensures
        open_after(history) == 0,
        history.len() == 2 * guards,
{
    lemma_open_is_difference(history);
}

/// Two histories of the same events, in whatever order, leave the same
/// number of initializations open.
pub proof fn lemma_order_does_not_matter(first: Seq<GuardEvent>, second: Seq<GuardEvent>)
    requires
        first.to_multiset() =~= second.to_multiset(),
    ensures
        open_after(first) == open_after(second),
{
    lemma_occurrences_is_count(first, GuardEvent::Construct);
    lemma_occurrences_is_count(first, GuardEvent::Destroy);
    lemma_occurrences_is_count(second, GuardEvent::Construct);
    lemma_occurrences_is_count(second, GuardEvent::Destroy);
    lemma_open_is_difference(first);
    lemma_open_is_difference(second);
}

/// The occurrences of an event are its multiplicity in the history.
proof fn lemma_occurrences_is_count(history: Seq<GuardEvent>, event: GuardEvent)
    ensures
        occurrences(history, event) == history.to_multiset().count(event),
    decreases history.len(),
{
    broadcast use vstd::seq_lib::group_to_multiset_ensures;

    if history.len() == 0 {
    } else {
        lemma_occurrences_is_count(history.drop_last(), event);
        assert(history.drop_last().push(history.last()) =~= history);
    }
}

} // verus!
