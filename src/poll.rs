//! Waiting for an instance to reach a lifecycle state: fetch the state,
//! stop when it is the target, otherwise pause a fixed interval and fetch again.
use vstd::prelude::*;
use crate::request::{Op, Request};

verus! {

/// Seconds between two state fetches.
pub const POLL_INTERVAL_SECS: u64 = 5;

/// Progress of one wait for instance `name` to reach state `target`.
pub struct Poller {
    pub name: String,
    pub target: String,
    /// State fetches answered so far.
    pub fetches: u64,
    /// Whether the target state has been observed.
    pub reached: bool,
}

impl Poller {
    /// A wait that has fetched nothing yet.
    pub fn new(name: &str, target: &str) -> (r: Poller)
        ensures
            r.name@ == name@,
            r.target@ == target@,
            r.fetches == 0,
            !r.reached,
    {
        Poller { name: name.to_owned(), target: target.to_owned(), fetches: 0, reached: false }
    }

    /// The state fetch that the wait issues next.
    pub fn fetch_request(&self) -> (r: Request)
        ensures
            r@ == (Op::GetInstanceState { name: self.name@ }),
    {
        Request::GetInstanceState { name: self.name.clone() }
    }

    /// The pause between a fetch that missed the target and the next fetch.
    pub fn pause_request(&self) -> (r: Request)
        ensures
            r@ == (Op::Sleep { secs: POLL_INTERVAL_SECS as nat }),
    {
        Request::Sleep { secs: POLL_INTERVAL_SECS }
    }

    /// Records the answer `state` to one fetch; returns whether the wait is over.
    /// The count of fetches stops at `u64::MAX`.
    pub fn observe(&mut self, state: &str) -> (done: bool)
        ensures
            done == (state@ == old(self).target@),
            final(self).reached == done,
            final(self).fetches == if old(self).fetches < u64::MAX {
                old(self).fetches + 1
            } else {
                old(self).fetches as int
            },
            final(self).name == old(self).name,
            final(self).target == old(self).target,
    {
        let done = state.to_owned() == self.target.clone();
        if self.fetches < u64::MAX {
            self.fetches = self.fetches + 1;
        }
        self.reached = done;
        done
    }
}

/// Runs a wait for `target` against the scripted answers `observed`, one per
/// fetch. Returns the number of fetches after which the wait ends, or `None`
/// when no answer is the target, so the wait would go on.
pub fn fetches_until_state(target: &str, observed: &Vec<String>) -> (r: Option<usize>)
    ensures
        r matches Some(k) ==> {
            &&& 1 <= k <= observed@.len()
            &&& observed@[k - 1]@ == target@
            &&& forall|j: int| 0 <= j < k - 1 ==> observed@[j]@ != target@
        },
        r is None ==> forall|j: int| 0 <= j < observed@.len() ==> observed@[j]@ != target@,
{
    let mut poller = Poller::new("", target);
    let mut i: usize = 0;
    while i < observed.len()
        invariant
            i <= observed@.len(),
            poller.fetches == i,
            poller.target@ == target@,
            forall|j: int| 0 <= j < i ==> observed@[j]@ != target@,
        decreases observed@.len() - i,
    {
        if poller.observe(observed[i].as_str()) {
            return Some(i + 1);
        }
        i = i + 1;
    }
    None
}

} // verus!
