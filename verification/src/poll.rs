//! The operation poller: a retry-until-terminal loop shared by the
//! provisioning and binding flows.
//!
//! The poller always sleeps one fixed interval before each state check, so
//! the state is never checked at the start; it keeps checking while the
//! operation is in progress and returns the first terminal state it sees.
//! Success and failure are both terminal and both returned; the caller
//! inspects the returned state.

use vstd::prelude::*;

verus! {

/// Seconds between two state checks.
pub const POLL_INTERVAL: u64 = 5;

/// The state a last-operation endpoint reports for an asynchronous
/// provision, bind, deprovision or unbind.
#[derive(Clone, Copy, PartialEq, Eq, Structural, Debug)]
pub enum OperationState {
    InProgress,
    Succeeded,
    Failed,
}

/// Whether a reported state ends the poll loop.
pub open spec fn is_terminal(s: OperationState) -> bool {
    s != OperationState::InProgress
}

/// Exec mirror of [`is_terminal`], for unverified drivers of the flows.
pub fn state_is_terminal(s: &OperationState) -> (r: bool)
    ensures
        r == is_terminal(*s),
{
    match s {
        OperationState::InProgress => false,
        _ => true,
    }
}

/// Index of the first terminal state in `states`, or `states.len()`.
pub open spec fn first_terminal(states: Seq<OperationState>) -> int
    decreases states.len(),
{
    if states.len() == 0 {
        0
    } else if is_terminal(states[0]) {
        0
    } else {
        1 + first_terminal(states.drop_first())
    }
}

pub open spec fn has_terminal(states: Seq<OperationState>) -> bool {
    exists|i: int| 0 <= i < states.len() && is_terminal(states[i])
}

pub proof fn lemma_first_terminal_bounds(states: Seq<OperationState>)
    ensures
        0 <= first_terminal(states) <= states.len(),
        has_terminal(states) <==> first_terminal(states) < states.len(),
        first_terminal(states) < states.len() ==> is_terminal(states[first_terminal(states)]),
        forall|i: int| 0 <= i < first_terminal(states) ==> !is_terminal(states[i]),
    decreases states.len(),
{
    if states.len() > 0 && !is_terminal(states[0]) {
        lemma_first_terminal_bounds(states.drop_first());
        assert forall|i: int| 0 <= i < first_terminal(states) implies !is_terminal(states[i]) by {
            if i > 0 {
                assert(!is_terminal(states.drop_first()[i - 1]));
            }
        }
        if has_terminal(states) {
            let i = choose|i: int| 0 <= i < states.len() && is_terminal(states[i]);
            assert(is_terminal(states.drop_first()[i - 1]));
        }
        if has_terminal(states.drop_first()) {
            let i = choose|i: int|
                0 <= i < states.drop_first().len() && is_terminal(states.drop_first()[i]);
            assert(is_terminal(states[i + 1]));
        }
    }
}

/// What the poller needs of its surroundings: a sleep of one interval, and
/// one fetch of the operation's current state. The ghost `upcoming` sequence
/// is the succession of states the source will report; `checks` and `sleeps`
/// count the calls made so far.
pub trait StateSource {
    spec fn upcoming(&self) -> Seq<OperationState>;

    spec fn checks(&self) -> nat;

    spec fn sleeps(&self) -> nat;

    /// Blocks for one poll interval.
    fn sleep_interval(&mut self)
        requires
            old(self).sleeps() < usize::MAX,
        ensures
            final(self).upcoming() == old(self).upcoming(),
            final(self).checks() == old(self).checks(),
            final(self).sleeps() == old(self).sleeps() + 1,
    ;

    /// Fetches the operation's current state.
    fn fetch_state(&mut self) -> (s: OperationState)
        requires
            old(self).upcoming().len() > 0,
            old(self).checks() < usize::MAX,
        ensures
            s == old(self).upcoming()[0],
            final(self).upcoming() == old(self).upcoming().drop_first(),
            final(self).checks() == old(self).checks() + 1,
            final(self).sleeps() == old(self).sleeps(),
    ;
}

/// Sleeps one interval, checks the state, and repeats until the state is no
/// longer in progress; with the first terminal state at (zero-based) index
/// `n` of what the source will report, it makes exactly `n + 1` checks and
/// `n + 1` sleeps and returns that state.
pub fn poll_until_terminal<S: StateSource>(source: &mut S) -> (r: OperationState)
    requires
        has_terminal(old(source).upcoming()),
        old(source).checks() + first_terminal(old(source).upcoming()) < usize::MAX,
        old(source).sleeps() + first_terminal(old(source).upcoming()) < usize::MAX,
    ensures
        is_terminal(r),
        r == old(source).upcoming()[first_terminal(old(source).upcoming())],
        final(source).checks() == old(source).checks() + first_terminal(old(source).upcoming()) + 1,
        final(source).sleeps() == old(source).sleeps() + first_terminal(old(source).upcoming()) + 1,
        final(source).upcoming() == old(source).upcoming().skip(
            first_terminal(old(source).upcoming()) + 1,
        ),
{
    let ghost all = old(source).upcoming();
    let ghost n = first_terminal(all);
    proof {
        lemma_first_terminal_bounds(all);
    }
    let ghost mut k: int = 0;
    loop
        invariant
            all == old(source).upcoming(),
            0 <= k <= n,
            n == first_terminal(all),
            has_terminal(all),
            0 <= n < all.len(),
            is_terminal(all[n]),
            forall|i: int| 0 <= i < n ==> !is_terminal(all[i]),
            source.upcoming() == all.skip(k),
            source.checks() == old(source).checks() + k,
            source.sleeps() == old(source).sleeps() + k,
            old(source).checks() + n < usize::MAX,
            old(source).sleeps() + n < usize::MAX,
        decreases n - k,
    {
        source.sleep_interval();
        proof {
            assert(all.skip(k).len() > 0);
        }
        let state = source.fetch_state();
        proof {
            assert(all.skip(k)[0] == all[k]);
            assert(all.skip(k).drop_first() =~= all.skip(k + 1));
        }
        if state_is_terminal(&state) {
            proof {
                assert(k == n);
            }
            return state;
        }
        proof {
            k = k + 1;
        }
    }
}

/// A state source whose reports are laid out in advance; implements the
/// poller's contract directly and backs the poller's tests.
pub struct ScriptedSource {
    pub states: Vec<OperationState>,
    pub pos: usize,
    pub slept: usize,
}

impl ScriptedSource {
    pub fn new(states: Vec<OperationState>) -> (r: ScriptedSource)
        ensures
            r.upcoming() == states@,
            r.checks() == 0,
            r.sleeps() == 0,
    {
        let r = ScriptedSource { states, pos: 0, slept: 0 };
        proof {
            assert(r.states@.skip(0) =~= r.states@);
        }
        r
    }

    /// How many state checks have been made.
    pub fn checks_made(&self) -> (r: usize)
        ensures
            r == self.checks(),
    {
        self.pos
    }

    /// How many interval sleeps have been made.
    pub fn sleeps_made(&self) -> (r: usize)
        ensures
            r == self.sleeps(),
    {
        self.slept
    }
}

impl StateSource for ScriptedSource {
    open spec fn upcoming(&self) -> Seq<OperationState> {
        if self.pos <= self.states.len() {
            self.states@.skip(self.pos as int)
        } else {
            Seq::empty()
        }
    }

    open spec fn checks(&self) -> nat {
        self.pos as nat
    }

    open spec fn sleeps(&self) -> nat {
        self.slept as nat
    }

    fn sleep_interval(&mut self) {
        self.slept = self.slept + 1;
    }

    fn fetch_state(&mut self) -> (s: OperationState) {
        proof {
            assert(old(self).pos < old(self).states.len());
        }
        let s = self.states[self.pos];
        self.pos = self.pos + 1;
        proof {
            assert(self.states@.skip(old(self).pos as int).drop_first() =~= self.states@.skip(
                self.pos as int,
            ));
        }
        s
    }
}

} // verus!
