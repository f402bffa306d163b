//! Tab navigation: an ordered list of tab titles and the selected index,
//! with wrap-around movement in both directions.

use vstd::prelude::*;
use vstd::arithmetic::div_mod::{lemma_small_mod, lemma_mod_self_0, lemma_add_mod_noop_right};

verus! {

/// Where `advance` moves the selected index: one step right, wrapping to the
/// start after the last tab.
pub open spec fn advance_spec(i: nat, n: nat) -> nat
    recommends
        n >= 1,
{
    (i + 1) % n
}

/// Where `retreat` moves the selected index: one step left, wrapping to the
/// last tab from the first.
pub open spec fn retreat_spec(i: nat, n: nat) -> nat
    recommends
        n >= 1,
{
    if i > 0 {
        (i - 1) as nat
    } else {
        (n - 1) as nat
    }
}

/// The navigation state: tab titles, fixed at construction, and the index of
/// the selected tab.
pub struct App {
    pub titles: Vec<String>,
    pub index: usize,
}

impl App {
    /// The navigation invariant: at least one tab, the selected index in
    /// range, and every title non-empty (the composer splits off the first
    /// character of each).
    pub open spec fn wf(&self) -> bool {
        &&& self.titles@.len() >= 1
        &&& self.index < self.titles@.len()
        &&& forall|j: int| 0 <= j < self.titles@.len() ==> (#[trigger] self.titles@[j])@.len() >= 1
    }

    /// Starts on the first of the four fixed tabs.
    pub fn new() -> (r: App)
        ensures
            r.wf(),
            r.index == 0,
            r.titles@.len() == 4,
            r.titles@[0]@ == "Tab0"@,
            r.titles@[1]@ == "Tab1"@,
            r.titles@[2]@ == "Tab2"@,
            r.titles@[3]@ == "Tab3"@,
    {
        let mut titles: Vec<String> = Vec::new();
        titles.push(String::from_str("Tab0"));
        titles.push(String::from_str("Tab1"));
        titles.push(String::from_str("Tab2"));
        titles.push(String::from_str("Tab3"));
        proof {
            reveal_strlit("Tab0");
            reveal_strlit("Tab1");
            reveal_strlit("Tab2");
            reveal_strlit("Tab3");
        }
        App { titles, index: 0 }
    }

    /// Moves the selection one tab to the right, wrapping to the first tab.
    pub fn next(&mut self)
        requires
            old(self).wf(),
        ensures
            final(self).wf(),
            final(self).titles@ == old(self).titles@,
            final(self).index as nat == advance_spec(old(self).index as nat, old(self).titles@.len()),
    {
        let n = self.titles.len();
        self.index = (self.index + 1) % n;
    }

    /// Moves the selection one tab to the left, wrapping to the last tab.
    pub fn previous(&mut self)
        requires
            old(self).wf(),
        ensures
            final(self).wf(),
            final(self).titles@ == old(self).titles@,
            final(self).index as nat == retreat_spec(old(self).index as nat, old(self).titles@.len()),
    {
        if self.index > 0 {
            self.index = self.index - 1;
        } else {
            self.index = self.titles.len() - 1;
        }
    }
}

/// Advancing from the last tab selects the first; retreating from the first
/// selects the last.
pub proof fn lemma_wrap_around(n: nat)
    requires
        n >= 1,
    ensures
        advance_spec((n - 1) as nat, n) == 0,
        retreat_spec(0, n) == (n - 1) as nat,
{
    lemma_mod_self_0(n as int);
}

/// Retreating undoes advancing and advancing undoes retreating, for every
/// in-range index.
pub proof fn lemma_advance_retreat_inverse(i: nat, n: nat)
    requires
        n >= 1,
        i < n,
    ensures
        retreat_spec(advance_spec(i, n), n) == i,
        advance_spec(retreat_spec(i, n), n) == i,
{
    if i + 1 < n {
        lemma_small_mod(i + 1, n);
    } else {
        lemma_mod_self_0(n as int);
    }
    if i == 0 {
        lemma_mod_self_0(n as int);
    } else {
        lemma_small_mod(i, n);
    }
}

/// `k` successive advances from index `i` among `n` tabs.
pub open spec fn advance_iter(i: nat, n: nat, k: nat) -> nat
    recommends
        n >= 1,
    decreases k,
{
    if k == 0 {
        i
    } else {
        advance_spec(advance_iter(i, n, (k - 1) as nat), n)
    }
}

/// Each advance adds one to the index, modulo the number of tabs.
pub proof fn lemma_advance_iter_mod(i: nat, n: nat, k: nat)
    requires
        n >= 1,
        i < n,
    ensures
        advance_iter(i, n, k) == (i + k) % n,
    decreases k,
{
    if k == 0 {
        lemma_small_mod(i, n);
    } else {
        lemma_advance_iter_mod(i, n, (k - 1) as nat);
        lemma_add_mod_noop_right(1, i + k - 1, n as int);
    }
}

/// The cyclic-group property: as many advances as there are tabs return the
/// selection to where it started, from any in-range index.
pub proof fn lemma_advance_full_cycle(i: nat, n: nat)
    requires
        n >= 1,
        i < n,
    ensures
        advance_iter(i, n, n) == i,
{
    lemma_advance_iter_mod(i, n, n);
    vstd::arithmetic::div_mod::lemma_mod_add_multiples_vanish(i as int, n as int);
    lemma_small_mod(i, n);
}

} // verus!
