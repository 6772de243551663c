//! The authorization context of one relay invocation.

use vstd::prelude::*;

verus! {

/// The set of principals that have granted explicit authorization for the
/// current invocation. The relay consults it for the sponsor and for the
/// caller before any other step; it never adds to it itself.
pub struct AuthContext {
    granted: Vec<u64>,
}

impl View for AuthContext {
    type V = Set<u64>;

    closed spec fn view(&self) -> Set<u64> {
        self.granted@.to_set()
    }
}

impl AuthContext {
    /// An invocation context in which nobody has authorized anything.
    pub fn new() -> (a: AuthContext)
        ensures
            a@ == Set::<u64>::empty(),
    {
        let a = AuthContext { granted: Vec::new() };
        proof {
            assert(a@ =~= Set::<u64>::empty());
        }
        a
    }

    /// Records that `principal` has granted authorization.
    pub fn grant(&mut self, principal: u64)
        ensures
            final(self)@ == old(self)@.insert(principal),
    {
        self.granted.push(principal);
        proof {
            broadcast use vstd::seq_lib::lemma_seq_contains_after_push;

            assert(self@ =~= old(self)@.insert(principal));
        }
    }

    /// Whether `principal` has granted authorization.
    pub fn is_granted(&self, principal: u64) -> (r: bool)
        ensures
            r == self@.contains(principal),
    {
        let n = self.granted.len();
        let mut i: usize = 0;
        while i < n
            invariant
                0 <= i <= n,
                n == self.granted.len(),
                forall|j: int| 0 <= j < i ==> self.granted@[j] != principal,
            decreases n - i,
        {
            if self.granted[i] == principal {
                return true;
            }
            i = i + 1;
        }
        false
    }
}

} // verus!
