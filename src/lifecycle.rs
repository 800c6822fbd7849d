use vstd::prelude::*;

verus! {

/// Where an index stands in its life: which operations it admits next.
#[derive(Clone, Copy, Debug, PartialEq, Eq, Structural)]
pub enum State {
    /// Just constructed: nothing inserted, nothing loaded.
    Empty,
    /// Items inserted, trees not yet built.
    Accumulating,
    /// Trees built in process memory (or in the file named before insertion).
    Built,
    /// Built, written to a file, and now served from that file.
    Persisted,
    /// Opened from a file written earlier, with no insertion or build.
    Loaded,
    /// Resources released; nothing further is admitted.
    Unloaded,
}

/// The states in which the index can be queried.
pub open spec fn queryable(s: State) -> bool {
    s == State::Built || s == State::Persisted || s == State::Loaded
}

/// The states in which items can still be inserted.
pub open spec fn accepts_items(s: State) -> bool {
    s == State::Empty || s == State::Accumulating
}

impl State {
    /// Whether the index can be queried in this state.
    pub fn is_queryable(&self) -> (r: bool)
        ensures
            r == queryable(*self),
    {
        match self {
            State::Built | State::Persisted | State::Loaded => true,
            _ => false,
        }
    }

    /// Whether items can still be inserted in this state.
    pub fn accepts_items(&self) -> (r: bool)
        ensures
            r == accepts_items(*self),
    {
        match self {
            State::Empty | State::Accumulating => true,
            _ => false,
        }
    }
}

} // verus!
