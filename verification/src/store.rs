//! The credential store: an immutable set of valid shared secrets, built once
//! at process start and read concurrently by every request evaluation.
//! Membership in this store is the only authority for admission.

use vstd::prelude::*;

verus! {

/// An immutable collection of opaque secret strings. An empty store rejects
/// every candidate.
pub struct CredentialStore {
    keys: Vec<String>,
}

impl View for CredentialStore {
    type V = Set<Seq<char>>;

    closed spec fn view(&self) -> Set<Seq<char>> {
        Set::new(|s: Seq<char>| exists|i: int| 0 <= i < self.keys@.len() && self.keys@[i]@ == s)
    }
}

impl CredentialStore {
    /// Build the store from the configured secrets. The store holds exactly
    /// the given strings, duplicates collapsing into one membership.
    pub fn new(keys: Vec<String>) -> (store: CredentialStore)
        ensures
            forall|s: Seq<char>|
                store@.contains(s) <==> exists|i: int| 0 <= i < keys@.len() && keys@[i]@ == s,
    {
        let store = CredentialStore { keys };
        store
    }

    /// Pure membership test: true exactly when the candidate is one of the
    /// stored secrets. Reads only immutable state, so arbitrarily many
    /// concurrent callers are safe.
    pub fn contains(&self, candidate: &str) -> (r: bool)
        ensures
            r == self@.contains(candidate@),
    {
        let n = self.keys.len();
        let mut i: usize = 0;
        while i < n
            invariant
                n == self.keys@.len(),
                i <= n,
                forall|j: int| 0 <= j < i ==> self.keys@[j]@ != candidate@,
            decreases n - i,
        {
            if crate::strutil::str_eq(self.keys[i].as_str(), candidate) {
                return true;
            }
            i = i + 1;
        }
        false
    }
}

} // verus!
