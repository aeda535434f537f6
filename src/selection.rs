use vstd::prelude::*;
use crate::text::{join, joined};

verus! {

/// `s` with every occurrence of `p` taken out, the rest in order.
pub open spec fn without(s: Seq<Seq<char>>, p: Seq<char>) -> Seq<Seq<char>>
    decreases s.len(),
{
    if s.len() == 0 {
        s
    } else if s.last() == p {
        without(s.drop_last(), p)
    } else {
        without(s.drop_last(), p).push(s.last())
    }
}

/// The members after toggling `p`: taken out where present, added at the end
/// where absent.
pub open spec fn toggled(s: Seq<Seq<char>>, p: Seq<char>) -> Seq<Seq<char>> {
    if s.contains(p) {
        without(s, p)
    } else {
        s.push(p)
    }
}

/// What `without` keeps: every member but `p`, each once where the input held it once.
pub proof fn lemma_without(s: Seq<Seq<char>>, p: Seq<char>)
    ensures
        forall|q: Seq<char>| #[trigger] without(s, p).contains(q) <==> (s.contains(q) && q != p),
        s.no_duplicates() ==> without(s, p).no_duplicates(),
        !s.contains(p) ==> without(s, p) == s,
    decreases s.len(),
{
    if s.len() > 0 {
        let d = s.drop_last();
        lemma_without(d, p);
        assert(s =~= d.push(s.last()));
        assert forall|q: Seq<char>| #[trigger] without(s, p).contains(q) <==> (s.contains(q) && q
            != p) by {
            lemma_push_contains(d, s.last(), q);
            assert(without(d, p).contains(q) <==> (d.contains(q) && q != p));
            if s.last() != p {
                assert(without(s, p) == without(d, p).push(s.last()));
                lemma_push_contains(without(d, p), s.last(), q);
            } else {
                assert(without(s, p) == without(d, p));
            }
        }
        if s.no_duplicates() {
            assert(d.no_duplicates()) by {
                assert forall|i: int, j: int| 0 <= i < d.len() && 0 <= j < d.len() && i != j
                    implies d[i] != d[j] by {
                    assert(s[i] == d[i] && s[j] == d[j]);
                }
            }
            if s.last() != p {
                assert(!d.contains(s.last())) by {
                    if d.contains(s.last()) {
                        let i = choose|i: int| 0 <= i < d.len() && d[i] == s.last();
                        assert(s[i] == s[s.len() - 1]);
                    }
                }
                assert(!without(d, p).contains(s.last()));
                let w = without(s, p);
                assert forall|i: int, j: int| 0 <= i < w.len() && 0 <= j < w.len() && i != j
                    implies w[i] != w[j] by {
                    if i < w.len() - 1 && j < w.len() - 1 {
                        assert(w[i] == without(d, p)[i] && w[j] == without(d, p)[j]);
                    } else if i < w.len() - 1 {
                        assert(w[i] == without(d, p)[i]);
                        assert(without(d, p).contains(w[i]));
                    } else {
                        assert(w[j] == without(d, p)[j]);
                        assert(without(d, p).contains(w[j]));
                    }
                }
            }
        }
        if !s.contains(p) {
            assert(!d.contains(p)) by {
                if d.contains(p) {
                    let i = choose|i: int| 0 <= i < d.len() && d[i] == p;
                    assert(s[i] == p);
                }
            }
            assert(s.last() != p) by {
                assert(s[s.len() - 1] == s.last());
            }
        }
    }
}

proof fn lemma_push_contains(d: Seq<Seq<char>>, x: Seq<char>, q: Seq<char>)
    ensures
        d.push(x).contains(q) <==> (d.contains(q) || q == x),
{
    let t = d.push(x);
    if t.contains(q) {
        let j = choose|j: int| 0 <= j < t.len() && t[j] == q;
        if j < d.len() {
            assert(d[j] == q);
        }
    }
    if d.contains(q) {
        let j = choose|j: int| 0 <= j < d.len() && d[j] == q;
        assert(t[j] == q);
    }
    if q == x {
        assert(t[d.len() as int] == q);
    }
}

/// Toggling the same path twice leaves every path's membership as it was.
pub proof fn lemma_toggle_twice(s: Seq<Seq<char>>, p: Seq<char>)
    ensures
        forall|q: Seq<char>| #[trigger] toggled(toggled(s, p), p).contains(q) <==> s.contains(q),
        s.no_duplicates() ==> toggled(toggled(s, p), p).no_duplicates(),
{
    lemma_without(s, p);
    if s.contains(p) {
        let w = without(s, p);
        assert(!w.contains(p));
        assert forall|q: Seq<char>| #[trigger] w.push(p).contains(q) <==> s.contains(q) by {
            if w.push(p).contains(q) {
                let j = choose|j: int| 0 <= j < w.push(p).len() && w.push(p)[j] == q;
                if j < w.len() {
                    assert(w[j] == q);
                    assert(w.contains(q));
                }
            }
            if s.contains(q) {
                if q == p {
                    assert(w.push(p)[w.len() as int] == q);
                } else {
                    assert(w.contains(q));
                    let j = choose|j: int| 0 <= j < w.len() && w[j] == q;
                    assert(w.push(p)[j] == q);
                }
            }
        }
        if s.no_duplicates() {
            assert forall|i: int, j: int|
                0 <= i < w.push(p).len() && 0 <= j < w.push(p).len() && i != j implies w.push(
                p,
            )[i] != w.push(p)[j] by {
                if i < w.len() && j < w.len() {
                } else if i < w.len() {
                    assert(w.contains(w[i]));
                } else {
                    assert(w.contains(w[j]));
                }
            }
        }
    } else {
        let t = s.push(p);
        assert(t.contains(p)) by {
            assert(t[s.len() as int] == p);
        }
        lemma_without(t, p);
        assert(without(t, p) =~= without(s, p)) by {
            assert(t.drop_last() =~= s);
        }
    }
}

/// The set of chosen paths. Each path is held at most once, in the order in
/// which it was chosen.
pub struct SelectionSet {
    items: Vec<String>,
}

impl View for SelectionSet {
    type V = Seq<Seq<char>>;

    closed spec fn view(&self) -> Seq<Seq<char>> {
        self.items@.map_values(|s: String| s@)
    }
}

impl SelectionSet {
    /// No path is held twice.
    pub open spec fn wf(&self) -> bool {
        self@.no_duplicates()
    }

    /// The empty set.
    pub fn new() -> (r: SelectionSet)
        ensures
            r@ == Seq::<Seq<char>>::empty(),
            r.wf(),
    {
        let r = SelectionSet { items: Vec::new() };
        assert(r@ =~= Seq::<Seq<char>>::empty());
        r
    }

    /// The number of chosen paths.
    pub fn len(&self) -> (r: usize)
        ensures
            r == self@.len(),
    {
        self.items.len()
    }

    /// Whether `p` is chosen.
    pub fn contains(&self, p: &String) -> (r: bool)
        ensures
            r == self@.contains(p@),
    {
        let mut i: usize = 0;
        while i < self.items.len()
            invariant
                i <= self.items@.len(),
                self@.len() == self.items@.len(),
                forall|j: int| 0 <= j < i ==> self@[j] != p@,
            decreases self.items.len() - i,
        {
            if self.items[i] == *p {
                assert(self@[i as int] == p@);
                return true;
            }
            i = i + 1;
        }
        false
    }

    /// Takes `p` out where it is chosen, else adds it at the end. Returns whether
    /// `p` is chosen afterwards.
    pub fn toggle(&mut self, p: String) -> (r: bool)
        requires
            old(self).wf(),
        ensures
            final(self)@ == toggled(old(self)@, p@),
            final(self).wf(),
            r == final(self)@.contains(p@),
            r == !old(self)@.contains(p@),
    {
        proof {
            lemma_without(self@, p@);
        }
        if self.contains(&p) {
            let ghost s = self@;
            let mut kept: Vec<String> = Vec::new();
            let mut i: usize = 0;
            while i < self.items.len()
                invariant
                    i <= self.items@.len(),
                    s == self@,
                    s.len() == self.items@.len(),
                    kept@.map_values(|x: String| x@) == without(s.subrange(0, i as int), p@),
                decreases self.items.len() - i,
            {
                let ghost before = kept@;
                assert(s.subrange(0, i + 1).drop_last() =~= s.subrange(0, i as int));
                assert(s.subrange(0, i + 1).last() == s[i as int]);
                if self.items[i] != p {
                    kept.push(self.items[i].clone());
                    assert(kept@.map_values(|x: String| x@) =~= before.map_values(|x: String| x@).push(
                        s[i as int],
                    ));
                }
                i = i + 1;
            }
            assert(s.subrange(0, self.items@.len() as int) =~= s);
            self.items = kept;
            false
        } else {
            let ghost s = self@;
            self.items.push(p);
            assert(self@ =~= s.push(p@));
            assert(self@[s.len() as int] == p@);
            proof {
                assert forall|i: int, j: int|
                    0 <= i < self@.len() && 0 <= j < self@.len() && i != j implies self@[i]
                    != self@[j] by {
                    if i < s.len() && j < s.len() {
                        assert(self@[i] == s[i] && self@[j] == s[j]);
                    } else if i < s.len() {
                        assert(self@[i] == s[i]);
                    } else {
                        assert(self@[j] == s[j]);
                    }
                }
            }
            true
        }
    }

    /// Empties the set.
    pub fn clear(&mut self)
        ensures
            final(self)@ == Seq::<Seq<char>>::empty(),
            final(self).wf(),
    {
        self.items.clear();
        assert(self@ =~= Seq::<Seq<char>>::empty());
    }

    /// The chosen paths, in the order in which they were chosen.
    pub fn members(&self) -> (r: Vec<String>)
        ensures
            r@.map_values(|x: String| x@) == self@,
    {
        let mut r: Vec<String> = Vec::new();
        let mut i: usize = 0;
        while i < self.items.len()
            invariant
                i <= self.items@.len(),
                self@.len() == self.items@.len(),
                r@.map_values(|x: String| x@) == self@.subrange(0, i as int),
            decreases self.items.len() - i,
        {
            let ghost before = r@;
            r.push(self.items[i].clone());
            assert(self@[i as int] == self.items@[i as int]@);
            assert(r@ == before.push(self.items@[i as int]));
            assert(r@.map_values(|x: String| x@) =~= before.map_values(|x: String| x@).push(
                self.items@[i as int]@,
            ));
            assert(self@.subrange(0, i + 1) =~= self@.subrange(0, i as int).push(self@[i as int]));
            i = i + 1;
        }
        assert(self@.subrange(0, i as int) =~= self@);
        r
    }

    /// The chosen paths written one after the other, with ", " between each two.
    pub fn to_text(&self) -> (r: String)
        ensures
            r@ == joined(self@, ", "@),
    {
        join(&self.items, ", ")
    }

    /// The chosen path at `i`.
    pub fn get(&self, i: usize) -> (r: &String)
        requires
            i < self@.len(),
        ensures
            r@ == self@[i as int],
    {
        &self.items[i]
    }
}

} // verus!
