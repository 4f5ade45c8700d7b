//! The list of windows this program made translucent, with their alpha.

use vstd::prelude::*;

verus! {

/// A window handle, as the address-sized integer that `HWND` holds.
pub type Handle = usize;

/// A window that was made translucent, and the alpha it was given.
#[derive(Clone, Copy, Debug, PartialEq, Eq, Structural)]
pub struct TransparentWindow {
    pub hwnd: Handle,
    pub alpha: i32,
}

/// Whether some entry of `s` is for `h`.
pub open spec fn has_handle(s: Seq<TransparentWindow>, h: Handle) -> bool {
    exists|i: int| 0 <= i < s.len() && s[i].hwnd == h
}

/// No handle occurs twice.
pub open spec fn distinct_handles(s: Seq<TransparentWindow>) -> bool {
    forall|i: int, j: int|
        0 <= i < s.len() && 0 <= j < s.len() && i != j ==> s[i].hwnd != s[j].hwnd
}

/// The alpha of each tracked window, by handle.
pub open spec fn alpha_map(s: Seq<TransparentWindow>) -> Map<Handle, i32> {
    Map::new(
        |h: Handle| has_handle(s, h),
        |h: Handle| s[choose|i: int| 0 <= i < s.len() && s[i].hwnd == h].alpha,
    )
}

/// The list that `swap_remove(i)` leaves: the last entry takes the place of
/// entry `i`.
pub open spec fn swap_removed(s: Seq<TransparentWindow>, i: int) -> Seq<TransparentWindow> {
    s.update(i, s.last()).drop_last()
}

/// The entries of `s` whose flag in `alive` (same positions) is set, in
/// order.
pub open spec fn keep_alive(s: Seq<TransparentWindow>, alive: Seq<bool>) -> Seq<TransparentWindow>
    decreases s.len(),
{
    if s.len() == 0 || alive.len() == 0 {
        Seq::empty()
    } else {
        let rest = keep_alive(s.drop_last(), alive.drop_last());
        if alive.last() { rest.push(s.last()) } else { rest }
    }
}

/// Each entry paired with its flag (same position).
pub open spec fn flagged(s: Seq<TransparentWindow>, alive: Seq<bool>) -> Seq<(TransparentWindow, bool)> {
    Seq::new(s.len(), |i: int| (s[i], alive[i]))
}

/// The entries whose flag is set, in their order: the flagged pairs
/// filtered on the flag, without it.
pub open spec fn flag_filter(s: Seq<TransparentWindow>, alive: Seq<bool>) -> Seq<TransparentWindow> {
    flagged(s, alive).filter(|p: (TransparentWindow, bool)| p.1).map_values(|p: (TransparentWindow, bool)| p.0)
}

/// Keeping the live entries is filtering the list by the flag at each
/// entry's own position, in order: the `i`-th flag decides the `i`-th
/// entry, and kept entries keep their relative order.
pub proof fn law_keep_alive_is_index_filter(s: Seq<TransparentWindow>, alive: Seq<bool>)
    requires
        s.len() == alive.len(),
    ensures
        keep_alive(s, alive) == flag_filter(s, alive),
    decreases s.len(),
{
    reveal(Seq::filter);
    let f = flagged(s, alive);
    if s.len() > 0 {
        law_keep_alive_is_index_filter(s.drop_last(), alive.drop_last());
        assert(f.drop_last() =~= flagged(s.drop_last(), alive.drop_last()));
        assert(f.last() == (s.last(), alive.last()));
        let g = f.drop_last().filter(|p: (TransparentWindow, bool)| p.1);
        if alive.last() {
            assert(f.filter(|p: (TransparentWindow, bool)| p.1) == g.push(f.last()));
            assert(g.push(f.last()).map_values(|p: (TransparentWindow, bool)| p.0)
                =~= g.map_values(|p: (TransparentWindow, bool)| p.0).push(s.last()));
        } else {
            assert(f.filter(|p: (TransparentWindow, bool)| p.1) == g);
        }
    } else {
        assert(f.filter(|p: (TransparentWindow, bool)| p.1) =~= Seq::<(TransparentWindow, bool)>::empty());
        assert(flag_filter(s, alive) =~= Seq::<TransparentWindow>::empty());
    }
}

/// In a list without repeated handles, a guard run keeps a window exactly
/// when its own flag is set: a live window stays tracked and a window that
/// is gone is forgotten, and nothing else is added.
pub proof fn law_keep_alive_members(s: Seq<TransparentWindow>, alive: Seq<bool>)
    requires
        s.len() == alive.len(),
        distinct_handles(s),
    ensures
        forall|i: int| 0 <= i < s.len() ==> (#[trigger] keep_alive(s, alive).contains(s[i]) <==> alive[i]),
        forall|i: int| 0 <= i < s.len() ==> (has_handle(keep_alive(s, alive), #[trigger] s[i].hwnd) <==> alive[i]),
        forall|x: TransparentWindow| #[trigger] keep_alive(s, alive).contains(x) ==> s.contains(x),
    decreases s.len(),
{
    lemma_keep_alive_subset(s, alive);
    if s.len() > 0 {
        let rest = s.drop_last();
        let ra = alive.drop_last();
        let r = keep_alive(rest, ra);
        assert(distinct_handles(rest));
        law_keep_alive_members(rest, ra);
        lemma_keep_alive_subset(rest, ra);
        assert(keep_alive(s, alive) == (if alive.last() { r.push(s.last()) } else { r }));
        let k = keep_alive(s, alive);
        assert forall|i: int| 0 <= i < s.len() implies (has_handle(k, #[trigger] s[i].hwnd) <==> alive[i]) by {
            if i < s.len() - 1 {
                assert(rest[i] == s[i]);
                assert(ra[i] == alive[i]);
                // The last entry has another handle than s[i].
                if has_handle(k, s[i].hwnd) && !has_handle(r, s[i].hwnd) {
                    let j = choose|j: int| 0 <= j < k.len() && k[j].hwnd == s[i].hwnd;
                    assert(j == r.len());
                    assert(k[j] == s.last());
                    assert(false);
                }
                if has_handle(r, s[i].hwnd) {
                    let j = choose|j: int| 0 <= j < r.len() && r[j].hwnd == s[i].hwnd;
                    assert(k[j] == r[j]);
                }
            } else {
                if alive[i] {
                    assert(k[k.len() - 1] == s[i]);
                } else {
                    assert(k == r);
                    if has_handle(r, s[i].hwnd) {
                        let j = choose|j: int| 0 <= j < r.len() && r[j].hwnd == s[i].hwnd;
                        assert(r.contains(r[j]));
                        let o = choose|o: int| 0 <= o < rest.len() && rest[o] == r[j];
                        assert(s[o].hwnd == s[i].hwnd);
                    }
                }
            }
        }
        assert forall|i: int| 0 <= i < s.len() implies (#[trigger] k.contains(s[i]) <==> alive[i]) by {
            if k.contains(s[i]) {
                let j = choose|j: int| 0 <= j < k.len() && k[j] == s[i];
                assert(has_handle(k, s[i].hwnd));
            }
            if alive[i] {
                assert(has_handle(k, s[i].hwnd));
                let j = choose|j: int| 0 <= j < k.len() && k[j].hwnd == s[i].hwnd;
                assert(k.contains(k[j]));
                let o = choose|o: int| 0 <= o < s.len() && s[o] == k[j];
                assert(o == i);
            }
        }
    }
}

/// Every entry kept is an entry of the original list.
proof fn lemma_keep_alive_subset(s: Seq<TransparentWindow>, alive: Seq<bool>)
    requires
        s.len() == alive.len(),
    ensures
        forall|x: TransparentWindow| #[trigger] keep_alive(s, alive).contains(x) ==> s.contains(x),
    decreases s.len(),
{
    if s.len() > 0 {
        let r = keep_alive(s.drop_last(), alive.drop_last());
        lemma_keep_alive_subset(s.drop_last(), alive.drop_last());
        assert(keep_alive(s, alive) == (if alive.last() { r.push(s.last()) } else { r }));
        assert forall|x: TransparentWindow| keep_alive(s, alive).contains(x) implies s.contains(x) by {
            let k = choose|k: int| 0 <= k < keep_alive(s, alive).len() && keep_alive(s, alive)[k] == x;
            if k < r.len() {
                assert(r[k] == x);
                assert(r.contains(x));
                let j = choose|j: int| 0 <= j < s.drop_last().len() && s.drop_last()[j] == x;
                assert(s[j] == x);
            } else {
                assert(s[s.len() - 1] == x);
            }
        }
    }
}

/// Keeping some entries of a list without repeated handles gives a list
/// without repeated handles.
proof fn lemma_keep_alive_distinct(s: Seq<TransparentWindow>, alive: Seq<bool>)
    requires
        s.len() == alive.len(),
        distinct_handles(s),
    ensures
        distinct_handles(keep_alive(s, alive)),
    decreases s.len(),
{
    if s.len() > 0 {
        let rest = s.drop_last();
        let r = keep_alive(rest, alive.drop_last());
        assert(distinct_handles(rest));
        lemma_keep_alive_distinct(rest, alive.drop_last());
        lemma_keep_alive_subset(rest, alive.drop_last());
        assert(keep_alive(s, alive) == (if alive.last() { r.push(s.last()) } else { r }));
        if alive.last() {
            let f = r.push(s.last());
            assert forall|a: int, b: int|
                0 <= a < f.len() && 0 <= b < f.len() && a != b implies f[a].hwnd != f[b].hwnd by {
                if a == f.len() - 1 || b == f.len() - 1 {
                    let o = if a == f.len() - 1 { b } else { a };
                    assert(r.contains(f[o]));
                    let k = choose|k: int| 0 <= k < rest.len() && rest[k] == f[o];
                    assert(s[k] == f[o]);
                } else {
                    assert(f[a] == r[a] && f[b] == r[b]);
                }
            }
        }
    }
}

/// The tracked windows, in the order the program keeps them.
pub struct Tracker {
    entries: Vec<TransparentWindow>,
}

impl View for Tracker {
    type V = Seq<TransparentWindow>;

    closed spec fn view(&self) -> Seq<TransparentWindow> {
        self.entries@
    }
}

/// Within a list without repeated handles, the entry found for `h` at `i`
/// is the one the alpha map reads.
proof fn lemma_alpha_at(s: Seq<TransparentWindow>, i: int)
    requires
        distinct_handles(s),
        0 <= i < s.len(),
    ensures
        alpha_map(s).contains_key(s[i].hwnd),
        alpha_map(s)[s[i].hwnd] == s[i].alpha,
{
    let h = s[i].hwnd;
    assert(has_handle(s, h));
    let j = choose|j: int| 0 <= j < s.len() && s[j].hwnd == h;
    assert(j == i);
}

impl Tracker {
    /// Whether the list is well formed: no handle occurs twice.
    pub open spec fn wf(&self) -> bool {
        distinct_handles(self@)
    }

    /// The alpha of each tracked window, by handle.
    pub open spec fn alphas(&self) -> Map<Handle, i32> {
        alpha_map(self@)
    }

    /// An empty list.
    pub fn new() -> (t: Self)
        ensures
            t.wf(),
            t@ == Seq::<TransparentWindow>::empty(),
            t.alphas() == Map::<Handle, i32>::empty(),
    {
        let t = Tracker { entries: Vec::new() };
        assert(t.alphas() =~= Map::<Handle, i32>::empty());
        t
    }

    /// The number of tracked windows.
    pub fn len(&self) -> (n: usize)
        ensures
            n == self@.len(),
    {
        self.entries.len()
    }

    /// The index of the entry for `hwnd`, if there is one
    /// (`iter().position(..)`).
    pub fn position(&self, hwnd: Handle) -> (r: Option<usize>)
        ensures
            match r {
                Some(i) => i < self@.len() && self@[i as int].hwnd == hwnd
                    && forall|j: int| 0 <= j < i ==> self@[j].hwnd != hwnd,
                None => !has_handle(self@, hwnd),
            },
    {
        let mut i: usize = 0;
        while i < self.entries.len()
            invariant
                i <= self@.len(),
                self@ == self.entries@,
                forall|j: int| 0 <= j < i ==> self@[j].hwnd != hwnd,
            decreases self@.len() - i,
        {
            if self.entries[i].hwnd == hwnd {
                return Some(i);
            }
            i = i + 1;
        }
        None
    }

    /// Records `alpha` for `hwnd`: the entry for `hwnd` is updated in place,
    /// or a new entry is appended when there is none.
    pub fn track_window(&mut self, hwnd: Handle, alpha: i32)
        requires
            old(self).wf(),
        ensures
            final(self).wf(),
            match old(self).position_spec(hwnd) {
                Some(i) => final(self)@ == old(self)@.update(i, TransparentWindow { hwnd, alpha }),
                None => final(self)@ == old(self)@.push(TransparentWindow { hwnd, alpha }),
            },
            final(self).alphas() == old(self).alphas().insert(hwnd, alpha),
    {
        let ghost s = self@;
        let entry = TransparentWindow { hwnd, alpha };
        match self.position(hwnd) {
            Some(idx) => {
                self.entries.set(idx, entry);
                proof {
                    lemma_position_unique(s, idx as int);
                }
            },
            None => {
                self.entries.push(entry);
            },
        }
        let ghost t = self@;
        assert(distinct_handles(t)) by {
            assert forall|i: int, j: int|
                0 <= i < t.len() && 0 <= j < t.len() && i != j implies t[i].hwnd != t[j].hwnd by {
                if t[i].hwnd == hwnd && i < s.len() && t.len() > s.len() {
                    assert(s[i].hwnd == hwnd);
                }
                if t[j].hwnd == hwnd && j < s.len() && t.len() > s.len() {
                    assert(s[j].hwnd == hwnd);
                }
            }
        }
        assert forall|h: Handle| #[trigger] alpha_map(t).contains_key(h) <==> alpha_map(s).insert(hwnd, alpha).contains_key(h) by {
            if h != hwnd && has_handle(s, h) {
                let k = choose|k: int| 0 <= k < s.len() && s[k].hwnd == h;
                assert(t[k].hwnd == h);
            }
            if h != hwnd && has_handle(t, h) {
                let k = choose|k: int| 0 <= k < t.len() && t[k].hwnd == h;
                assert(s[k].hwnd == h);
            }
            if h == hwnd {
                let k = if t.len() > s.len() { s.len() as int } else { choose|k: int| 0 <= k < s.len() && s[k].hwnd == hwnd };
                assert(t[k].hwnd == hwnd);
            }
        }
        assert forall|h: Handle| #[trigger] alpha_map(t).contains_key(h) implies alpha_map(t)[h] == alpha_map(s).insert(hwnd, alpha)[h] by {
            let k = choose|k: int| 0 <= k < t.len() && t[k].hwnd == h;
            lemma_alpha_at(t, k);
            if h != hwnd {
                assert(s[k].hwnd == h);
                lemma_alpha_at(s, k);
            }
        }
        assert(alpha_map(t) =~= alpha_map(s).insert(hwnd, alpha));
    }

    /// The index that `position` finds for `hwnd`.
    pub open spec fn position_spec(&self, hwnd: Handle) -> Option<int> {
        if has_handle(self@, hwnd) {
            Some(choose|i: int| 0 <= i < self@.len() && self@[i].hwnd == hwnd)
        } else {
            None
        }
    }

    /// Drops the entry for `hwnd`, if any, with `swap_remove`: the last
    /// entry takes its place.
    pub fn untrack_window(&mut self, hwnd: Handle)
        requires
            old(self).wf(),
        ensures
            final(self).wf(),
            match old(self).position_spec(hwnd) {
                Some(i) => final(self)@ == swap_removed(old(self)@, i),
                None => final(self)@ == old(self)@,
            },
            final(self).alphas() == old(self).alphas().remove(hwnd),
    {
        let ghost s = self@;
        match self.position(hwnd) {
            Some(idx) => {
                proof {
                    lemma_position_unique(s, idx as int);
                }
                let _ = self.entries.swap_remove(idx);
                let ghost t = self@;
                assert(t =~= swap_removed(s, idx as int));
                assert(distinct_handles(t)) by {
                    assert forall|i: int, j: int|
                        0 <= i < t.len() && 0 <= j < t.len() && i != j implies t[i].hwnd != t[j].hwnd by {
                        let oi = if i == idx { s.len() - 1 } else { i };
                        let oj = if j == idx { s.len() - 1 } else { j };
                        assert(t[i] == s[oi]);
                        assert(t[j] == s[oj]);
                    }
                }
                assert forall|h: Handle| #[trigger] alpha_map(t).contains_key(h) <==> alpha_map(s).remove(hwnd).contains_key(h) by {
                    if has_handle(t, h) {
                        let k = choose|k: int| 0 <= k < t.len() && t[k].hwnd == h;
                        let ok = if k == idx { s.len() - 1 } else { k };
                        assert(s[ok].hwnd == h);
                    }
                    if h != hwnd && has_handle(s, h) {
                        let k = choose|k: int| 0 <= k < s.len() && s[k].hwnd == h;
                        let nk = if k == s.len() - 1 { idx as int } else { k };
                        assert(t[nk].hwnd == h);
                    }
                }
                assert forall|h: Handle| #[trigger] alpha_map(t).contains_key(h) implies alpha_map(t)[h] == alpha_map(s).remove(hwnd)[h] by {
                    let k = choose|k: int| 0 <= k < t.len() && t[k].hwnd == h;
                    let ok = if k == idx { s.len() - 1 } else { k };
                    assert(t[k] == s[ok]);
                    lemma_alpha_at(t, k);
                    lemma_alpha_at(s, ok);
                }
                assert(alpha_map(t) =~= alpha_map(s).remove(hwnd));
            },
            None => {
                assert(alpha_map(s) =~= alpha_map(s).remove(hwnd));
            },
        }
    }

    /// Drops every entry whose handle is in `dead`, keeping the order of the
    /// others (`retain(|tw| !dead.contains(&tw.hwnd))`).
    pub fn remove_dead(&mut self, dead: &Vec<Handle>)
        requires
            old(self).wf(),
        ensures
            final(self).wf(),
            final(self)@ == old(self)@.filter(|tw: TransparentWindow| !dead@.contains(tw.hwnd)),
            final(self).alphas() == old(self).alphas().restrict(
                old(self).alphas().dom().filter(|h: Handle| !dead@.contains(h)),
            ),
    {
        let ghost s = self@;
        let ghost keep = |tw: TransparentWindow| !dead@.contains(tw.hwnd);
        let mut kept: Vec<TransparentWindow> = Vec::new();
        let mut i: usize = 0;
        while i < self.entries.len()
            invariant
                self.entries@ == s,
                i <= s.len(),
                kept@ == s.take(i as int).filter(keep),
                forall|tw: TransparentWindow| #[trigger] keep(tw) == !dead@.contains(tw.hwnd),
            decreases s.len() - i,
        {
            let e = self.entries[i];
            let mut found = false;
            let mut j: usize = 0;
            while j < dead.len()
                invariant
                    j <= dead@.len(),
                    found == dead@.take(j as int).contains(e.hwnd),
                decreases dead@.len() - j,
            {
                let ghost before = dead@.take(j as int);
                let ghost after = dead@.take(j + 1);
                assert(after =~= before.push(dead@[j as int]));
                if dead[j] == e.hwnd {
                    found = true;
                    assert(after[j as int] == e.hwnd);
                } else {
                    assert(after.contains(e.hwnd) ==> before.contains(e.hwnd)) by {
                        if after.contains(e.hwnd) {
                            let k = choose|k: int| 0 <= k < after.len() && after[k] == e.hwnd;
                            assert(before[k] == e.hwnd);
                        }
                    }
                    assert(before.contains(e.hwnd) ==> after.contains(e.hwnd)) by {
                        if before.contains(e.hwnd) {
                            let k = choose|k: int| 0 <= k < before.len() && before[k] == e.hwnd;
                            assert(after[k] == e.hwnd);
                        }
                    }
                }
                j = j + 1;
            }
            assert(dead@.take(dead@.len() as int) =~= dead@);
            assert(found == !keep(e));
            let ghost pre = s.take(i as int);
            assert(s.take(i + 1).drop_last() =~= pre);
            assert(s.take(i + 1).last() == e);
            proof {
                reveal(Seq::filter);
            }
            if !found {
                kept.push(e);
            }
            assert(kept@ =~= s.take(i + 1).filter(keep));
            i = i + 1;
        }
        assert(s.take(s.len() as int) =~= s);
        self.entries = kept;
        let ghost t = self@;
        proof {
            lemma_filter_keeps(s, keep);
        }
        let ghost m = alpha_map(s);
        let ghost r = m.restrict(m.dom().filter(|h: Handle| !dead@.contains(h)));
        assert forall|h: Handle| #[trigger] alpha_map(t).contains_key(h) <==> r.contains_key(h) by {
            if has_handle(t, h) {
                let k = choose|k: int| 0 <= k < t.len() && t[k].hwnd == h;
                assert(t.contains(t[k]));
                assert(keep(t[k]));
                assert(s.contains(t[k]));
                let o = choose|o: int| 0 <= o < s.len() && s[o] == t[k];
                assert(has_handle(s, h));
            }
            if r.contains_key(h) {
                let k = choose|k: int| 0 <= k < s.len() && s[k].hwnd == h;
                assert(keep(s[k]));
                assert(s.contains(s[k]));
                assert(t.contains(s[k]));
                let o = choose|o: int| 0 <= o < t.len() && t[o] == s[k];
                assert(t[o].hwnd == h);
            }
        }
        assert forall|h: Handle| #[trigger] alpha_map(t).contains_key(h) implies alpha_map(t)[h] == r[h] by {
            let k = choose|k: int| 0 <= k < t.len() && t[k].hwnd == h;
            lemma_alpha_at(t, k);
            assert(t.contains(t[k]));
            assert(s.contains(t[k]));
            let o = choose|o: int| 0 <= o < s.len() && s[o] == t[k];
            lemma_alpha_at(s, o);
        }
        assert(alpha_map(t) =~= r);
    }

    /// Keeps the entries whose flag in `alive` (one per entry, in order) is
    /// set, and drops the others, keeping the order.
    pub fn retain_alive(&mut self, alive: &Vec<bool>)
        requires
            old(self).wf(),
            alive@.len() == old(self)@.len(),
        ensures
            final(self).wf(),
            final(self)@ == keep_alive(old(self)@, alive@),
            final(self)@ == flag_filter(old(self)@, alive@),
            forall|i: int| 0 <= i < old(self)@.len() ==> (#[trigger] final(self)@.contains(old(self)@[i]) <==> alive@[i]),
    {
        let ghost s = self@;
        let mut kept: Vec<TransparentWindow> = Vec::new();
        let mut i: usize = 0;
        while i < self.entries.len()
            invariant
                self.entries@ == s,
                alive@.len() == s.len(),
                i <= s.len(),
                kept@ == keep_alive(s.take(i as int), alive@.take(i as int)),
            decreases s.len() - i,
        {
            assert(s.take(i + 1).drop_last() =~= s.take(i as int));
            assert(alive@.take(i + 1).drop_last() =~= alive@.take(i as int));
            if alive[i] {
                kept.push(self.entries[i]);
            }
            i = i + 1;
        }
        assert(s.take(s.len() as int) =~= s);
        assert(alive@.take(s.len() as int) =~= alive@);
        proof {
            lemma_keep_alive_distinct(s, alive@);
            law_keep_alive_is_index_filter(s, alive@);
            law_keep_alive_members(s, alive@);
        }
        self.entries = kept;
    }

    /// The handles of the tracked windows, in order
    /// (`iter().map(|tw| tw.hwnd).collect()`).
    pub fn handles(&self) -> (r: Vec<Handle>)
        ensures
            r@ == self@.map_values(|tw: TransparentWindow| tw.hwnd),
    {
        let mut r: Vec<Handle> = Vec::new();
        let mut i: usize = 0;
        while i < self.entries.len()
            invariant
                i <= self@.len(),
                self.entries@ == self@,
                r@ == self@.take(i as int).map_values(|tw: TransparentWindow| tw.hwnd),
            decreases self@.len() - i,
        {
            r.push(self.entries[i].hwnd);
            i = i + 1;
            assert(r@ =~= self@.take(i as int).map_values(|tw: TransparentWindow| tw.hwnd));
        }
        assert(self@.take(self@.len() as int) =~= self@);
        r
    }

    /// A copy of the tracked entries, in order.
    pub fn snapshot(&self) -> (r: Vec<TransparentWindow>)
        ensures
            r@ == self@,
    {
        let mut r: Vec<TransparentWindow> = Vec::new();
        let mut i: usize = 0;
        while i < self.entries.len()
            invariant
                i <= self@.len(),
                self.entries@ == self@,
                r@ == self@.take(i as int),
            decreases self@.len() - i,
        {
            r.push(self.entries[i]);
            i = i + 1;
            assert(r@ =~= self@.take(i as int));
        }
        assert(self@.take(self@.len() as int) =~= self@);
        r
    }
}

/// Tracking a window and then untracking it leaves the same alphas as
/// untracking it alone: nothing of the tracked alpha remains.
pub proof fn law_untrack_undoes_track(t: Tracker, hwnd: Handle, alpha: i32)
    requires
        t.wf(),
    ensures
        t.alphas().insert(hwnd, alpha).remove(hwnd) == t.alphas().remove(hwnd),
{
    assert(t.alphas().insert(hwnd, alpha).remove(hwnd) =~= t.alphas().remove(hwnd));
}

/// Tracking the same window twice keeps only the later alpha, and
/// tracking it again reads back the alpha just tracked.
pub proof fn law_track_last_wins(t: Tracker, hwnd: Handle, a: i32, b: i32)
    requires
        t.wf(),
    ensures
        t.alphas().insert(hwnd, a).insert(hwnd, b) == t.alphas().insert(hwnd, b),
        t.alphas().insert(hwnd, b)[hwnd] == b,
{
    assert(t.alphas().insert(hwnd, a).insert(hwnd, b) =~= t.alphas().insert(hwnd, b));
}

/// In a list without repeated handles, the first entry for a handle is the
/// only one.
proof fn lemma_position_unique(s: Seq<TransparentWindow>, i: int)
    requires
        distinct_handles(s),
        0 <= i < s.len(),
    ensures
        (choose|j: int| 0 <= j < s.len() && s[j].hwnd == s[i].hwnd) == i,
{
    let h = s[i].hwnd;
    assert(has_handle(s, h));
}

/// A filtered list holds exactly the kept elements of the original, and a
/// list without repeated handles keeps that property under filtering.
proof fn lemma_filter_keeps(s: Seq<TransparentWindow>, keep: spec_fn(TransparentWindow) -> bool)
    requires
        distinct_handles(s),
    ensures
        forall|x: TransparentWindow| s.filter(keep).contains(x) <==> (s.contains(x) && keep(x)),
        distinct_handles(s.filter(keep)),
    decreases s.len(),
{
    broadcast use Seq::lemma_filter_contains_rev, Seq::lemma_filter_pred, Seq::lemma_filter_contains;
    assert forall|x: TransparentWindow| s.filter(keep).contains(x) implies (s.contains(x) && keep(x)) by {
        let k = choose|k: int| 0 <= k < s.filter(keep).len() && s.filter(keep)[k] == x;
        s.lemma_filter_pred(keep, k);
    }
    assert forall|x: TransparentWindow| s.contains(x) && keep(x) implies s.filter(keep).contains(x) by {
        let k = choose|k: int| 0 <= k < s.len() && s[k] == x;
        s.lemma_filter_contains(keep, k);
    }
    reveal(Seq::filter);
    if s.len() > 0 {
        let rest = s.drop_last();
        assert(distinct_handles(rest));
        lemma_filter_keeps(rest, keep);
        let f = s.filter(keep);
        let fr = rest.filter(keep);
        if keep(s.last()) {
            assert(f == fr.push(s.last()));
            assert forall|a: int, b: int|
                0 <= a < f.len() && 0 <= b < f.len() && a != b implies f[a].hwnd != f[b].hwnd by {
                if a == f.len() - 1 || b == f.len() - 1 {
                    let o = if a == f.len() - 1 { b } else { a };
                    assert(fr.contains(f[o]));
                    let k = choose|k: int| 0 <= k < rest.len() && rest[k] == f[o];
                    assert(s[k] == f[o]);
                } else {
                    assert(f[a] == fr[a] && f[b] == fr[b]);
                }
            }
        }
    }
}

} // verus!
