//! The named line items of a statement: a map from account name to amount,
//! kept in the order in which the names were first inserted.

use vstd::prelude::*;
use crate::decimal::Amount;

verus! {

/// `str`'s `==`: two string slices are equal when they hold the same characters.
pub assume_specification[ <str as PartialEq>::eq ](a: &str, b: &str) -> (r: bool)
    ensures
        r == (a@ == b@),
;

/// One named accounting entry.
#[derive(Debug)]
pub struct LineItem {
    pub name: String,
    pub amount: Amount,
}

impl Clone for LineItem {
    fn clone(&self) -> (r: Self)
        ensures
            r == *self,
    {
        LineItem { name: self.name.clone(), amount: self.amount }
    }
}

/// A map from account name to amount in which no name occurs twice.
#[derive(Debug)]
pub struct LineItems {
    entries: Vec<LineItem>,
}

impl View for LineItems {
    type V = Map<Seq<char>, Amount>;

    closed spec fn view(&self) -> Map<Seq<char>, Amount> {
        Map::new(
            |k: Seq<char>| LineItems::occurs(self.entries@, k),
            |k: Seq<char>| self.entries@[LineItems::position(self.entries@, k)].amount,
        )
    }
}

impl LineItems {
    #[verifier::type_invariant]
    closed spec fn distinct(self) -> bool {
        LineItems::distinct_names(self.entries@)
    }

    spec fn distinct_names(s: Seq<LineItem>) -> bool {
        forall|i: int, j: int| 0 <= i < j < s.len() ==> s[i].name@ != s[j].name@
    }

    spec fn occurs(s: Seq<LineItem>, k: Seq<char>) -> bool {
        exists|i: int| 0 <= i < s.len() && s[i].name@ == k
    }

    spec fn position(s: Seq<LineItem>, k: Seq<char>) -> int {
        choose|i: int| 0 <= i < s.len() && s[i].name@ == k
    }

    /// The entries in the order of their first insertion.
    pub closed spec fn entries(&self) -> Seq<LineItem> {
        self.entries@
    }

    /// The entries are exactly the pairs of the map, each name once.
    pub proof fn lemma_entries(&self)
        requires
            self.well_formed(),
        ensures
            forall|i: int|
                0 <= i < self.entries().len() ==> self@.contains_key(
                    #[trigger] self.entries()[i].name@,
                ) && self@[self.entries()[i].name@] == self.entries()[i].amount,
            forall|k: Seq<char>|
                self@.contains_key(k) ==> exists|i: int|
                    0 <= i < self.entries().len() && #[trigger] self.entries()[i].name@ == k,
    {
        assert forall|i: int| 0 <= i < self.entries().len() implies self@.contains_key(
            #[trigger] self.entries()[i].name@,
        ) && self@[self.entries()[i].name@] == self.entries()[i].amount by {
            let k = self.entries@[i].name@;
            assert(LineItems::occurs(self.entries@, k));
            let p = LineItems::position(self.entries@, k);
            assert(self.entries@[p].name@ == k);
            assert(p == i);
        }
        assert forall|k: Seq<char>| self@.contains_key(k) implies exists|i: int|
            0 <= i < self.entries().len() && #[trigger] self.entries()[i].name@ == k by {
            let p = LineItems::position(self.entries@, k);
            assert(self.entries()[p].name@ == k);
        }
    }

    /// No name occurs twice among the entries of a map that executable code holds.
    pub open spec fn well_formed(&self) -> bool {
        forall|i: int, j: int|
            0 <= i < j < self.entries().len() ==> self.entries()[i].name@ != self.entries()[j].name@
    }

    pub fn new() -> (r: LineItems)
        ensures
            r@ == Map::<Seq<char>, Amount>::empty(),
            r.entries().len() == 0,
    {
        let r = LineItems { entries: Vec::new() };
        assert(r@ =~= Map::<Seq<char>, Amount>::empty());
        r
    }

    /// The number of names.
    pub fn len(&self) -> (r: usize)
        ensures
            r == self.entries().len(),
    {
        self.entries.len()
    }

    /// The entry at a position, in the order of first insertion.
    pub fn entry(&self, i: usize) -> (r: &LineItem)
        requires
            i < self.entries().len(),
        ensures
            *r == self.entries()[i as int],
            self@.contains_key(r.name@),
            self@[r.name@] == r.amount,
            self.well_formed(),
    {
        proof {
            use_type_invariant(self);
            self.lemma_entries();
        }
        &self.entries[i]
    }

    fn find(&self, name: &str) -> (r: Option<usize>)
        ensures
            match r {
                Some(i) => i < self.entries@.len() && self.entries@[i as int].name@ == name@
                    && self@.contains_key(name@) && self@[name@] == self.entries@[i as int].amount,
                None => !self@.contains_key(name@) && !LineItems::occurs(self.entries@, name@),
            },
    {
        proof {
            use_type_invariant(self);
        }
        let mut i: usize = 0;
        while i < self.entries.len()
            invariant
                i <= self.entries@.len(),
                LineItems::distinct_names(self.entries@),
                forall|j: int| 0 <= j < i ==> self.entries@[j].name@ != name@,
            decreases self.entries@.len() - i,
        {
            if *self.entries[i].name.as_str() == *name {
                proof {
                    assert(LineItems::occurs(self.entries@, name@));
                    let p = LineItems::position(self.entries@, name@);
                    assert(self.entries@[p].name@ == name@);
                    assert(p == i);
                }
                return Some(i);
            }
            i += 1;
        }
        None
    }

    /// The amount under a name, if the name is present.
    pub fn get(&self, name: &str) -> (r: Option<Amount>)
        ensures
            r == (if self@.contains_key(name@) {
                Some(self@[name@])
            } else {
                None
            }),
    {
        match self.find(name) {
            Some(i) => Some(self.entries[i].amount),
            None => None,
        }
    }

    /// Whether the name is present.
    pub fn contains_key(&self, name: &str) -> (r: bool)
        ensures
            r == self@.contains_key(name@),
    {
        self.find(name).is_some()
    }

    /// What a lookup gives when an absent name counts as zero.
    pub open spec fn value_or_zero(items: Map<Seq<char>, Amount>, name: Seq<char>) -> Amount {
        if items.contains_key(name) {
            items[name]
        } else {
            Amount::zero_spec()
        }
    }

    /// The amount under a name; zero where the name is absent.
    pub fn get_or_zero(&self, name: &str) -> (r: Amount)
        ensures
            r == LineItems::value_or_zero(self@, name@),
    {
        match self.get(name) {
            Some(a) => a,
            None => Amount::zero(),
        }
    }

    /// What a lookup over an ordered list of candidate names gives: the amount
    /// under the first candidate that is present, zero where none is.
    pub open spec fn first_present_or_zero(
        items: Map<Seq<char>, Amount>,
        candidates: Seq<Seq<char>>,
    ) -> Amount
        decreases candidates.len(),
    {
        if candidates.len() == 0 {
            Amount::zero_spec()
        } else if items.contains_key(candidates[0]) {
            items[candidates[0]]
        } else {
            LineItems::first_present_or_zero(items, candidates.drop_first())
        }
    }

    /// The names of a list of candidates.
    pub open spec fn names_of(candidates: Seq<&str>) -> Seq<Seq<char>> {
        candidates.map_values(|c: &str| c@)
    }

    /// The amount under the first of the candidate names that is present; zero
    /// where none of them is.
    pub fn first_or_zero(&self, candidates: &[&str]) -> (r: Amount)
        ensures
            r == LineItems::first_present_or_zero(self@, LineItems::names_of(candidates@)),
    {
        let ghost all = LineItems::names_of(candidates@);
        proof {
            assert(all.skip(0) =~= all);
        }
        let mut i: usize = 0;
        while i < candidates.len()
            invariant
                i <= candidates@.len(),
                all == LineItems::names_of(candidates@),
                LineItems::first_present_or_zero(self@, all) == LineItems::first_present_or_zero(
                    self@,
                    all.skip(i as int),
                ),
            decreases candidates@.len() - i,
        {
            let ghost rest = all.skip(i as int);
            proof {
                assert(rest.len() > 0);
                assert(rest[0] == candidates@[i as int]@);
                assert(rest.drop_first() =~= all.skip(i + 1));
            }
            match self.get(candidates[i]) {
                Some(a) => {
                    return a;
                },
                None => {},
            }
            i += 1;
        }
        proof {
            assert(all.skip(i as int).len() == 0);
        }
        Amount::zero()
    }

    /// Puts an amount under a name, in place of the one that was there, and
    /// gives back the one that was there.
    pub fn insert(&mut self, name: String, amount: Amount) -> (r: Option<Amount>)
        ensures
            final(self)@ == old(self)@.insert(name@, amount),
            r == (if old(self)@.contains_key(name@) {
                Some(old(self)@[name@])
            } else {
                None
            }),
            old(self)@.contains_key(name@) ==> final(self).entries().len() == old(self).entries().len(),
            !old(self)@.contains_key(name@) ==> final(self).entries() == old(self).entries().push(
                LineItem { name, amount },
            ),
    {
        proof {
            use_type_invariant(&*self);
        }
        let ghost before = self.entries@;
        let found = self.find(name.as_str());
        let mut entries: Vec<LineItem> = Vec::new();
        std::mem::swap(&mut self.entries, &mut entries);
        match found {
            Some(i) => {
                let previous = entries[i].amount;
                entries.set(i, LineItem { name, amount });
                std::mem::swap(&mut self.entries, &mut entries);
                proof {
                    let after = self.entries@;
                    assert forall|k: Seq<char>|
                        LineItems::occurs(after, k) == LineItems::occurs(before, k) by {
                        if LineItems::occurs(after, k) {
                            let p = LineItems::position(after, k);
                            assert(before[p].name@ == k);
                        }
                        if LineItems::occurs(before, k) {
                            let p = LineItems::position(before, k);
                            assert(after[p].name@ == k);
                        }
                    }
                    assert forall|k: Seq<char>| LineItems::occurs(after, k) implies after[LineItems::position(
                        after,
                        k,
                    )].amount == (if k == name@ {
                        amount
                    } else {
                        before[LineItems::position(before, k)].amount
                    }) by {
                        let p = LineItems::position(after, k);
                        let q = LineItems::position(before, k);
                        assert(before[p].name@ == k);
                        assert(p == q);
                    }
                    assert(self@ =~= old(self)@.insert(name@, amount));
                }
                Some(previous)
            },
            None => {
                entries.push(LineItem { name, amount });
                std::mem::swap(&mut self.entries, &mut entries);
                proof {
                    let after = self.entries@;
                    let last = before.len() as int;
                    assert(after[last].name@ == name@);
                    assert forall|k: Seq<char>|
                        LineItems::occurs(after, k) == (k == name@ || LineItems::occurs(
                            before,
                            k,
                        )) by {
                        if LineItems::occurs(after, k) {
                            let p = LineItems::position(after, k);
                            if p < last {
                                assert(before[p].name@ == k);
                            }
                        }
                        if LineItems::occurs(before, k) {
                            let p = LineItems::position(before, k);
                            assert(after[p].name@ == k);
                        }
                    }
                    assert forall|k: Seq<char>| LineItems::occurs(after, k) implies after[LineItems::position(
                        after,
                        k,
                    )].amount == (if k == name@ {
                        amount
                    } else {
                        before[LineItems::position(before, k)].amount
                    }) by {
                        let p = LineItems::position(after, k);
                        if k != name@ {
                            assert(p < last);
                            assert(before[p].name@ == k);
                            let q = LineItems::position(before, k);
                            assert(after[q].name@ == k);
                            assert(p == q);
                        } else {
                            assert(p == last);
                        }
                    }
                    assert(self@ =~= old(self)@.insert(name@, amount));
                }
                None
            },
        }
    }
}

impl Clone for LineItems {
    fn clone(&self) -> (r: Self)
        ensures
            r@ == self@,
            r.entries() == self.entries(),
    {
        proof {
            use_type_invariant(self);
        }
        let mut entries: Vec<LineItem> = Vec::new();
        let mut i: usize = 0;
        while i < self.entries.len()
            invariant
                i <= self.entries@.len(),
                entries@ == self.entries@.take(i as int),
            decreases self.entries@.len() - i,
        {
            entries.push(self.entries[i].clone());
            proof {
                assert(entries@ =~= self.entries@.take(i + 1));
            }
            i += 1;
        }
        proof {
            assert(entries@ =~= self.entries@);
        }
        let r = LineItems { entries };
        assert(r@ =~= self@);
        r
    }
}

} // verus!
