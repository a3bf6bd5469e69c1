//! Opening book: an immutable mapping from the Zobrist hash of a position
//! to a non-empty list of UCI move strings, loaded once from JSON.

use vstd::prelude::*;

verus! {

/// Relies on `serde_json::from_str::<HashMap<u64, Vec<String>>>`: parses
/// a JSON object of move lists keyed by position hashes; the keys of a
/// JSON object are distinct.
#[verifier::external_body]
fn book_from_json(text: &str) -> (r: Option<Vec<(u64, Vec<String>)>>)
    ensures
        r is Some ==> (forall|i: int, j: int|
            0 <= i < j < r.unwrap()@.len() ==> (#[trigger] r.unwrap()@[i]).0 != (
            #[trigger] r.unwrap()@[j]).0),
{
    let parsed: std::collections::HashMap<u64, Vec<String>> = match serde_json::from_str(text) {
        Ok(m) => m,
        Err(_) => return None,
    };
    Some(parsed.into_iter().collect())
}

/// Relies on `rand::random_range` over `0..n`: an index drawn uniformly
/// below `n`.
#[verifier::external_body]
pub fn random_below(n: usize) -> (r: usize)
    requires
        n >= 1,
    ensures
        r < n,
{
    rand::random_range(0..n)
}

pub struct Book {
    entries: Vec<(u64, Vec<String>)>,
}

impl Book {
    pub closed spec fn view(&self) -> Seq<(u64, Seq<Seq<char>>)> {
        Seq::new(
            self.entries@.len(),
            |i: int| (self.entries@[i].0, self.entries@[i].1.deep_view()),
        )
    }

    pub fn new() -> (r: Book)
        ensures
            r@.len() == 0,
    {
        Book { entries: Vec::new() }
    }

    /// Replace the book with the entries of the given JSON object;
    /// returns whether the text parsed.  On a parse failure the book is
    /// left unchanged.
    pub fn load_json(&mut self, text: &str) -> (r: bool)
        ensures
            !r ==> final(self)@ == old(self)@,
    {
        match book_from_json(text) {
            Some(entries) => {
                self.entries = entries;
                true
            },
            None => false,
        }
    }

    /// The move list stored under `key`, if any.
    pub fn lookup(&self, key: u64) -> (r: Option<&Vec<String>>)
        ensures
            r is Some ==> exists|i: int|
                0 <= i < self@.len() && (#[trigger] self@[i]).0 == key && self@[i].1
                    == r.unwrap().deep_view(),
            r is None ==> forall|i: int| 0 <= i < self@.len() ==> (#[trigger] self@[i]).0 != key,
    {
        let mut i: usize = 0;
        while i < self.entries.len()
            invariant
                i <= self.entries@.len(),
                self@.len() == self.entries@.len(),
                forall|k: int| 0 <= k < i ==> (#[trigger] self@[k]).0 != key,
            decreases self.entries@.len() - i,
        {
            if self.entries[i].0 == key {
                assert(self@[i as int].0 == key && self@[i as int].1 == self.entries@[
                i as int].1.deep_view());
                return Some(&self.entries[i].1);
            }
            assert(self@[i as int].0 != key);
            i += 1;
        }
        None
    }
}

} // verus!
