//! State shared by the request handlers: the application name, read by every
//! worker, and the request counter, which every worker increments under one lock.
use vstd::prelude::*;

verus! {

/// Read-only state: the name that the index page greets with.
pub struct AppState {
    pub app_name: String,
}

impl AppState {
    pub fn new(app_name: String) -> (r: AppState)
        ensures
            r.app_name@ == app_name@,
    {
        AppState { app_name }
    }
}

impl Default for AppState {
    /// The state of the default configuration, named "Actix web".
    fn default() -> (r: AppState)
        ensures
            r.app_name@ == "Actix web"@,
    {
        AppState { app_name: String::from_str("Actix web") }
    }
}

/// The request counter. Its owner keeps it behind a lock, so that the
/// increments of all workers happen one after another.
pub struct AppStateWithCounter {
    counter: u64,
}

impl View for AppStateWithCounter {
    type V = nat;

    /// The number of increments made since the counter was created.
    closed spec fn view(&self) -> nat {
        self.counter as nat
    }
}

impl AppStateWithCounter {
    pub fn new() -> (r: AppStateWithCounter)
        ensures
            r@ == 0,
    {
        AppStateWithCounter { counter: 0 }
    }

    pub fn count(&self) -> (r: u64)
        ensures
            r == self@,
    {
        self.counter
    }

    /// Adds one to the counter and returns the new value.
    pub fn increment(&mut self) -> (r: u64)
        requires
            old(self)@ < u64::MAX,
        ensures
            final(self)@ == old(self)@ + 1,
            r == final(self)@,
    {
        self.counter = self.counter + 1;
        self.counter
    }
}

/// `returned` holds what successive increments of one counter gave back, in
/// the order the lock let them through: the counter stood at `start` before
/// the first, and each later one starts from the value the one before left.
pub open spec fn successive_increments(start: nat, returned: Seq<nat>) -> bool {
    forall|i: int|
        0 <= i < returned.len() ==> #[trigger] returned[i] == (if i == 0 {
            start
        } else {
            returned[i - 1]
        }) + 1
}

/// The `i`-th increment after the counter stood at `start` returns `start + i + 1`.
pub proof fn lemma_successive_increments_value(start: nat, returned: Seq<nat>, i: int)
    requires
        successive_increments(start, returned),
        0 <= i < returned.len(),
    ensures
        returned[i] == start + i + 1,
    decreases i,
{
    if i > 0 {
        lemma_successive_increments_value(start, returned, i - 1);
    }
}

/// However many requests a fresh counter serves, the values they get are
/// exactly 1, 2, ..., N: no value is handed out twice and none is skipped.
pub proof fn lemma_fresh_counter_values(returned: Seq<nat>)
    requires
        successive_increments(0, returned),
    ensures
        returned.no_duplicates(),
        returned.to_set() == Set::new(|v: nat| 1 <= v <= returned.len()),
{
    assert forall|i: int| 0 <= i < returned.len() implies #[trigger] returned[i] == i + 1 by {
        lemma_successive_increments_value(0, returned, i);
    }
    assert(returned.to_set() =~= Set::new(|v: nat| 1 <= v <= returned.len())) by {
        assert forall|v: nat| 1 <= v <= returned.len() implies returned.to_set().contains(v) by {
            assert(returned[v - 1] == v);
        }
    }
}

/// Two requests served by one counter never get the same value.
pub proof fn lemma_no_value_twice(start: nat, returned: Seq<nat>, i: int, j: int)
    requires
        successive_increments(start, returned),
        0 <= i < returned.len(),
        0 <= j < returned.len(),
        i != j,
    ensures
        returned[i] != returned[j],
{
    lemma_successive_increments_value(start, returned, i);
    lemma_successive_increments_value(start, returned, j);
}

} // verus!
