//! The per-seat record of key codes that were intercepted on press.
//!
//! Whatever swallows a key press records the key's code here. The keyboard
//! pipeline asks for every release whether its code is on record; if so the
//! release is swallowed too, so that no client sees one half of a key stroke.

use vstd::prelude::*;

verus! {

/// Key codes whose press was swallowed and whose release must be swallowed too.
///
/// The codes are kept in the order in which they were recorded; a code may
/// occur more than once when it was intercepted repeatedly before its release.
pub struct SupressedKeys {
    codes: Vec<u32>,
}

impl View for SupressedKeys {
    type V = Seq<u32>;

    closed spec fn view(&self) -> Seq<u32> {
        self.codes@
    }
}

/// The place of the first `code` in `codes` at or after `from`.
pub open spec fn first_code_from(codes: Seq<u32>, code: u32, from: int) -> Option<int>
    decreases codes.len() - from,
{
    if from < 0 || from >= codes.len() {
        None
    } else if codes[from] == code {
        Some(from)
    } else {
        first_code_from(codes, code, from + 1)
    }
}

/// The place of the first `code` in `codes`.
pub open spec fn first_code(codes: Seq<u32>, code: u32) -> Option<int> {
    first_code_from(codes, code, 0)
}

/// `codes` without the first `code`; `codes` itself where it holds none.
pub open spec fn without_first(codes: Seq<u32>, code: u32) -> Seq<u32> {
    match first_code(codes, code) {
        Some(i) => codes.remove(i),
        None => codes,
    }
}

/// How often `code` occurs in `codes`.
pub open spec fn occurrences(codes: Seq<u32>, code: u32) -> nat {
    codes.to_multiset().count(code)
}

impl SupressedKeys {
    /// A tracker that holds no key code.
    pub fn new() -> (keys: SupressedKeys)
        ensures
            keys@ == Seq::<u32>::empty(),
    {
        SupressedKeys { codes: Vec::new() }
    }

    /// Records `code`, whether or not it is on record already.
    pub fn add(&mut self, code: u32)
        ensures
            final(self)@ == old(self)@.push(code),
    {
        self.codes.push(code);
    }

    /// Removes the first record of `code` and says whether there was one.
    pub fn filter(&mut self, code: u32) -> (found: bool)
        ensures
            found == first_code(old(self)@, code).is_some(),
            found == old(self)@.contains(code),
            final(self)@ == without_first(old(self)@, code),
    {
        let mut i: usize = 0;
        while i < self.codes.len()
            invariant
                i <= self.codes.len(),
                self.codes@ == old(self).codes@,
                first_code(self.codes@, code) == first_code_from(self.codes@, code, i as int),
                forall|j: int| 0 <= j < i ==> self.codes@[j] != code,
            decreases self.codes.len() - i,
        {
            if self.codes[i] == code {
                self.codes.remove(i);
                return true;
            }
            i += 1;
        }
        false
    }

    /// The number of recorded codes.
    pub fn len(&self) -> (n: usize)
        ensures
            n == self@.len(),
    {
        self.codes.len()
    }

    /// Whether `code` is on record.
    pub fn contains(&self, code: u32) -> (found: bool)
        ensures
            found == self@.contains(code),
    {
        let mut i: usize = 0;
        while i < self.codes.len()
            invariant
                i <= self.codes.len(),
                forall|j: int| 0 <= j < i ==> self.codes@[j] != code,
            decreases self.codes.len() - i,
        {
            if self.codes[i] == code {
                return true;
            }
            i += 1;
        }
        false
    }
}

/// The first record of a code lies within the sequence, holds that code, and
/// no earlier place does; there is none exactly where the code does not occur.
pub proof fn lemma_first_code(codes: Seq<u32>, code: u32, from: int)
    requires
        0 <= from,
    ensures
        match first_code_from(codes, code, from) {
            Some(i) => from <= i < codes.len() && codes[i] == code && forall|j: int|
                from <= j < i ==> codes[j] != code,
            None => forall|j: int| from <= j < codes.len() ==> codes[j] != code,
        },
    decreases codes.len() - from,
{
    if from < codes.len() && codes[from] != code {
        lemma_first_code(codes, code, from + 1);
    }
}

/// Recording a code and then filtering it finds it and takes exactly one
/// record of it away: every code is on record as often as before. Where the
/// code was not on record before, the record is again what it was.
pub proof fn lemma_add_then_filter(codes: Seq<u32>, code: u32)
    ensures
        first_code(codes.push(code), code).is_some(),
        without_first(codes.push(code), code).len() == codes.len(),
        without_first(codes.push(code), code).to_multiset() == codes.to_multiset(),
        !codes.contains(code) ==> without_first(codes.push(code), code) == codes,
{
    let pushed = codes.push(code);
    lemma_first_code(pushed, code, 0);
    assert(pushed[codes.len() as int] == code);
    let i = first_code(pushed, code).unwrap();
    vstd::seq_lib::to_multiset_build(codes, code);
    vstd::seq_lib::to_multiset_remove(pushed, i);
    assert(pushed.remove(i).to_multiset() == pushed.to_multiset().remove(code));
    assert(pushed.to_multiset().remove(code) == codes.to_multiset());
    if !codes.contains(code) {
        assert(i == codes.len()) by {
            if i < codes.len() {
                assert(codes[i] == code);
            }
        }
        assert(pushed.remove(i) =~= codes);
    }
}

/// Filtering never lengthens the record, and shortens it by at most one.
pub proof fn lemma_filter_never_grows(codes: Seq<u32>, code: u32)
    ensures
        without_first(codes, code).len() <= codes.len(),
        codes.len() <= without_first(codes, code).len() + 1,
        !codes.contains(code) ==> without_first(codes, code) == codes,
{
    lemma_first_code(codes, code, 0);
}

} // verus!
