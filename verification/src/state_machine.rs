//! The back-navigable state machine of the dialog: a stack of visited
//! stages, the current stage, and the session data.
//!
//! Forward transitions push the current stage; going back pops once; a
//! rewind jumps to a named earlier stage and discards what followed it.

use vstd::prelude::*;
use crate::data::Data;
use crate::state::State;

verus! {

/// The dialog's control state.
pub struct StateMachine {
    pub previous_states: Vec<State>,
    pub state: State,
    pub data: Data,
}

/// The position of the first occurrence of a stage in a history, if any.
pub open spec fn first_occurrence(s: Seq<State>, t: State) -> Option<int>
    decreases s.len(),
{
    if s.len() == 0 {
        Option::None
    } else if s[0] == t {
        Option::Some(0)
    } else {
        match first_occurrence(s.subrange(1, s.len() as int), t) {
            Option::Some(j) => Option::Some(j + 1),
            Option::None => Option::None,
        }
    }
}

proof fn lemma_first_occurrence_at(s: Seq<State>, t: State, m: int)
    requires
        0 <= m < s.len(),
        s[m] == t,
        forall|k: int| 0 <= k < m ==> s[k] != t,
    ensures
        first_occurrence(s, t) == Option::Some(m),
    decreases m,
{
    if m > 0 {
        lemma_first_occurrence_at(s.subrange(1, s.len() as int), t, m - 1);
    }
}

proof fn lemma_first_occurrence_none(s: Seq<State>, t: State)
    requires
        forall|k: int| 0 <= k < s.len() ==> s[k] != t,
    ensures
        first_occurrence(s, t) is None,
    decreases s.len(),
{
    if s.len() > 0 {
        lemma_first_occurrence_none(s.subrange(1, s.len() as int), t);
    }
}

impl StateMachine {
    /// A machine at a given stage with an empty history.
    pub fn new(state: State, data: Data) -> (r: Self)
        ensures
            r.previous_states@ == Seq::<State>::empty(),
            r.state == state,
            r.data == data,
    {
        let r = StateMachine { previous_states: Vec::new(), state, data };
        proof {
            assert(r.previous_states@ =~= Seq::<State>::empty());
        }
        r
    }

    /// The current stage.
    pub fn current_state(&self) -> (r: State)
        ensures
            r == self.state,
    {
        self.state
    }

    /// Advances: pushes the current stage onto the history and makes the
    /// given stage current. The history grows by exactly one entry.
    pub fn set_state(&mut self, state: State)
        ensures
            final(self).previous_states@ == old(self).previous_states@.push(old(self).state),
            final(self).previous_states@.len() == old(self).previous_states@.len() + 1,
            final(self).state == state,
            final(self).data == old(self).data,
    {
        let cur = self.state;
        self.previous_states.push(cur);
        self.state = state;
    }

    /// Rewinds to the first occurrence of a stage in the history: that
    /// stage becomes current and everything after it is discarded. When the
    /// stage is not in the history, nothing changes.
    pub fn set_previous_state_and_truncate_next(&mut self, state: State)
        ensures
            match first_occurrence(old(self).previous_states@, state) {
                Option::Some(i) => final(self).previous_states@ == old(
                    self,
                ).previous_states@.subrange(0, i) && final(self).state == state && final(self).data
                    == old(self).data,
                Option::None => *final(self) == *old(self),
            },
    {
        let n = self.previous_states.len();
        let mut i: usize = 0;
        while i < n
            invariant
                i <= n,
                *self == *old(self),
                n == self.previous_states.len(),
                forall|k: int| 0 <= k < i ==> old(self).previous_states@[k] != state,
            decreases n - i,
        {
            if self.previous_states[i] == state {
                proof {
                    lemma_first_occurrence_at(old(self).previous_states@, state, i as int);
                }
                self.previous_states.truncate(i);
                self.state = state;
                return ;
            }
            i += 1;
        }
        proof {
            lemma_first_occurrence_none(old(self).previous_states@, state);
        }
    }

    /// Goes back one stage: pops the history into the current stage. At an
    /// empty history nothing changes.
    pub fn set_previous_state(&mut self)
        ensures
            old(self).previous_states@.len() > 0 ==> final(self).state == old(
                self,
            ).previous_states@.last() && final(self).previous_states@ == old(
                self,
            ).previous_states@.drop_last() && final(self).data == old(self).data,
            old(self).previous_states@.len() == 0 ==> final(self).state == old(self).state
                && final(self).previous_states@ == old(self).previous_states@ && final(self).data
                == old(self).data,
    {
        match self.previous_states.pop() {
            Option::Some(state) => {
                self.state = state;
            },
            Option::None => {},
        }
    }

    /// The session data, for the driver to read and write.
    pub fn data(&mut self) -> (r: &mut Data)
        ensures
            *r == old(self).data,
            final(self).data == *final(r),
            final(self).previous_states@ == old(self).previous_states@,
            final(self).state == old(self).state,
    {
        &mut self.data
    }
}

impl Default for StateMachine {
    /// A machine at the first stage, with an empty history and an empty
    /// session.
    fn default() -> (r: Self)
        ensures
            r.previous_states@ == Seq::<State>::empty(),
            r.state == State::SelectLanguage,
            r.data.language == crate::language::Language::All,
            r.data.source is None,
            r.data.player is None,
    {
        StateMachine::new(State::default(), Data::default())
    }
}

/// Advancing to any stage and then going back restores both the prior
/// current stage and the prior history: with the histories `set_state` and
/// `set_previous_state` promise, pushing the current stage and popping once
/// return exactly the starting pair, and the pushed history is one entry
/// longer.
pub proof fn lemma_advance_then_back(previous: Seq<State>, current: State, next: State)
    ensures
        previous.push(current).len() == previous.len() + 1,
        previous.push(current).len() > 0,
        previous.push(current).last() == current,
        previous.push(current).drop_last() == previous,
{
    assert(previous.push(current).drop_last() =~= previous);
}

/// A rewind to a stage that is in the history makes it current and keeps
/// exactly the entries that preceded its first occurrence; a rewind to one
/// that is not is a no-op. This restates the contract of
/// `set_previous_state_and_truncate_next` over `first_occurrence`.
pub proof fn lemma_rewind_semantics(previous: Seq<State>, target: State)
    ensures
        (first_occurrence(previous, target) matches Some(i) ==> 0 <= i < previous.len()
            && previous[i] == target && forall|k: int| 0 <= k < i ==> previous[k] != target),
        first_occurrence(previous, target) is None ==> forall|k: int|
            0 <= k < previous.len() ==> previous[k] != target,
    decreases previous.len(),
{
    if previous.len() > 0 {
        lemma_rewind_semantics(previous.subrange(1, previous.len() as int), target);
        let rest = previous.subrange(1, previous.len() as int);
        if previous[0] != target {
            match first_occurrence(rest, target) {
                Option::Some(j) => {
                    assert(forall|k: int| 0 <= k < j ==> rest[k] != target);
                    assert(forall|k: int|
                        1 <= k < j + 1 ==> previous[k] == rest[k - 1] && rest[k - 1] != target);
                },
                Option::None => {
                    assert(forall|k: int|
                        1 <= k < previous.len() ==> previous[k] == rest[k - 1] && rest[k - 1]
                            != target);
                },
            }
        }
    }
}

} // verus!
