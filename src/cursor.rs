use vstd::prelude::*;
use vstd::arithmetic::div_mod::lemma_fundamental_div_mod_converse;

verus! {

/// The position that `advance` selects in a list of `len` entries.
pub open spec fn advanced(current: Option<usize>, len: usize) -> Option<usize> {
    if len == 0 {
        current
    } else {
        match current {
            None => Some(0),
            Some(i) => if i + 1 >= len {
                Some(0)
            } else {
                Some((i + 1) as usize)
            },
        }
    }
}

/// The position that `retreat` selects in a list of `len` entries.
pub open spec fn retreated(current: Option<usize>, len: usize) -> Option<usize> {
    if len == 0 {
        current
    } else {
        match current {
            None => Some((len - 1) as usize),
            Some(i) => if i == 0 {
                Some((len - 1) as usize)
            } else {
                Some((i - 1) as usize)
            },
        }
    }
}

/// The cursor after `k` calls of `advance`.
pub open spec fn advanced_times(current: Option<usize>, len: usize, k: nat) -> Option<usize>
    decreases k,
{
    if k == 0 {
        current
    } else {
        advanced(advanced_times(current, len, (k - 1) as nat), len)
    }
}

/// The cursor after `k` calls of `retreat`.
pub open spec fn retreated_times(current: Option<usize>, len: usize, k: nat) -> Option<usize>
    decreases k,
{
    if k == 0 {
        current
    } else {
        retreated(retreated_times(current, len, (k - 1) as nat), len)
    }
}

/// A cursor that is either absent or points into a list of `len` entries.
pub open spec fn in_bounds(current: Option<usize>, len: usize) -> bool {
    match current {
        None => true,
        Some(i) => i < len,
    }
}

/// First index of the page of height `height` that holds `index`.
pub open spec fn page_start(index: usize, height: usize) -> usize {
    if height == 0 {
        0
    } else {
        ((index / height) * height) as usize
    }
}

/// One past the last index of that page, cut at the end of the list.
pub open spec fn page_end(index: usize, len: usize, height: usize) -> usize {
    let start = page_start(index, height);
    if height == 0 || start >= len {
        start
    } else if len - start <= height {
        len
    } else {
        (start + height) as usize
    }
}

/// Moves the cursor forward over `len` entries, wrapping from the last to the first.
pub fn advance(current: Option<usize>, len: usize) -> (r: Option<usize>)
    ensures
        r == advanced(current, len),
        len == 0 ==> r == current,
        len > 0 ==> r is Some && r->0 < len,
{
    if len == 0 {
        return current;
    }
    match current {
        None => Some(0),
        Some(i) => if i >= len - 1 {
            Some(0)
        } else {
            Some(i + 1)
        },
    }
}

/// Moves the cursor backward over `len` entries, wrapping from the first to the last.
pub fn retreat(current: Option<usize>, len: usize) -> (r: Option<usize>)
    ensures
        r == retreated(current, len),
        len == 0 ==> r == current,
        len > 0 && in_bounds(current, len) ==> r is Some && r->0 < len,
{
    if len == 0 {
        return current;
    }
    match current {
        None => Some(len - 1),
        Some(i) => if i == 0 {
            Some(len - 1)
        } else {
            Some(i - 1)
        },
    }
}

/// The page of height `height` that holds `index`, as the range `start..end` of
/// a list of `len` entries. A page of height zero is empty.
pub fn visible_window(index: usize, len: usize, height: usize) -> (r: (usize, usize))
    ensures
        r.0 == page_start(index, height),
        r.1 == page_end(index, len, height),
        r.0 <= r.1 <= r.0 + height,
        height > 0 ==> r.0 % height == 0,
        height > 0 && index < len ==> r.0 <= index < r.1,
{
    if height == 0 {
        return (0, 0);
    }
    proof {
        lemma_page_start(index, height);
    }
    let start = (index / height) * height;
    let end = if start >= len {
        start
    } else if len - start <= height {
        len
    } else {
        start + height
    };
    (start, end)
}

proof fn lemma_page_start(index: usize, height: usize)
    requires
        height > 0,
    ensures
        (index / height) * height <= index,
        index < (index / height) * height + height,
        ((index / height) * height) % (height as int) == 0,
{
    let q = index / height;
    let r = index % height;
    assert(index == q * height + r) by (nonlinear_arith)
        requires
            height > 0,
            q == index / height,
            r == index % height,
    ;
    assert(0 <= r < height);
    assert((q * height) % (height as int) == 0) by (nonlinear_arith)
        requires
            height > 0,
            q >= 0,
    ;
}

/// Advancing `len` times from the first entry comes back to the first entry.
/// From no selection the first step reaches the first entry, so `len` steps end
/// on the first entry only for a list of one, and `len + 1` steps for any list.
pub proof fn lemma_advance_cycle(len: usize)
    requires
        len >= 1,
    ensures
        advanced_times(Some(0), len, len as nat) == Some(0usize),
        advanced_times(None, len, 1) == Some(0usize),
        advanced_times(None, len, (len + 1) as nat) == Some(0usize),
        len == 1 ==> advanced_times(None, len, len as nat) == Some(0usize),
        len >= 2 ==> advanced_times(None, len, len as nat) == Some((len - 1) as usize),
{
    lemma_advance_prefix(len, (len - 1) as nat);
    assert(advanced_times(Some(0), len, len as nat) == advanced(
        advanced_times(Some(0), len, (len - 1) as nat),
        len,
    ));
    lemma_advance_shift(len, len as nat);
    lemma_advance_shift(len, (len - 1) as nat);
    assert(advanced_times(None, len, 0) == None::<usize>);
    assert(advanced_times(None, len, 1) == advanced(advanced_times(None, len, 0), len));
}

proof fn lemma_advance_prefix(len: usize, k: nat)
    requires
        len >= 1,
        k < len,
    ensures
        advanced_times(Some(0), len, k) == Some(k as usize),
    decreases k,
{
    if k > 0 {
        lemma_advance_prefix(len, (k - 1) as nat);
    }
}

proof fn lemma_advance_shift(len: usize, k: nat)
    requires
        len >= 1,
    ensures
        advanced_times(None, len, k + 1) == advanced_times(Some(0), len, k),
    decreases k,
{
    if k > 0 {
        lemma_advance_shift(len, (k - 1) as nat);
        assert(advanced_times(None, len, k + 1) == advanced(advanced_times(None, len, k), len));
        assert(advanced_times(Some(0), len, k) == advanced(
            advanced_times(Some(0), len, (k - 1) as nat),
            len,
        ));
    } else {
        assert(advanced_times(None, len, 1) == advanced(advanced_times(None, len, 0), len));
    }
}

proof fn lemma_mod_succ(k: int, n: int)
    requires
        k >= 0,
        n >= 1,
    ensures
        0 <= k % n < n,
        (k + 1) % n == if k % n + 1 == n {
            0
        } else {
            k % n + 1
        },
{
    let q = k / n;
    let r = k % n;
    assert(k == q * n + r && 0 <= r < n) by (nonlinear_arith)
        requires
            n >= 1,
            q == k / n,
            r == k % n,
    ;
    if r + 1 == n {
        assert(k + 1 == (q + 1) * n + 0) by (nonlinear_arith)
            requires
                k == q * n + r,
                r + 1 == n,
        ;
        lemma_fundamental_div_mod_converse(k + 1, n, q + 1, 0);
    } else {
        lemma_fundamental_div_mod_converse(k + 1, n, q, r + 1);
    }
}

/// After `k` moves forward from the first entry the cursor is at `k` modulo
/// the length; after `k >= 1` moves forward from no selection it is at `k - 1`
/// modulo the length.
pub proof fn lemma_advance_times(len: usize, k: nat)
    requires
        len >= 1,
    ensures
        advanced_times(Some(0), len, k) == Some((k % (len as nat)) as usize),
        k >= 1 ==> advanced_times(None, len, k) == Some(((k - 1) as nat % (len as nat)) as usize),
    decreases k,
{
    if k > 0 {
        let j = (k - 1) as nat;
        lemma_advance_times(len, j);
        lemma_mod_succ(j as int, len as int);
        assert(advanced_times(Some(0), len, k) == advanced(advanced_times(Some(0), len, j), len));
        lemma_advance_shift(len, j);
    } else {
        assert(0nat % (len as nat) == 0) by (nonlinear_arith)
            requires
                len >= 1,
        ;
    }
}

/// After `k` moves backward from the first entry the cursor is at the length
/// less `k`, modulo the length.
pub proof fn lemma_retreat_times(len: usize, k: nat)
    requires
        len >= 1,
    ensures
        retreated_times(Some(0), len, k) == Some(((len - k % (len as nat)) % (len as int)) as usize),
    decreases k,
{
    let n = len as nat;
    lemma_mod_succ(0, n as int);
    assert((n as int) % (n as int) == 0) by (nonlinear_arith)
        requires
            n >= 1,
    ;
    if k > 0 {
        let j = (k - 1) as nat;
        lemma_retreat_times(len, j);
        lemma_mod_succ(j as int, n as int);
        assert(retreated_times(Some(0), len, k) == retreated(retreated_times(Some(0), len, j), len));
        let r = j % n;
        if r == 0 {
            assert((n - 0) % (n as int) == 0);
        } else {
            lemma_fundamental_div_mod_converse(n - r, n as int, 0, n - r);
        }
        if r + 1 < n {
            lemma_fundamental_div_mod_converse(n - (r + 1), n as int, 0, n - (r + 1));
        }
    }
}

/// Retreating `len` times from the first entry comes back to the first entry.
pub proof fn lemma_retreat_cycle(len: usize)
    requires
        len >= 1,
    ensures
        retreated_times(Some(0), len, len as nat) == Some(0usize),
{
    lemma_retreat_prefix(len, len as nat);
}

proof fn lemma_retreat_prefix(len: usize, k: nat)
    requires
        1 <= k <= len,
    ensures
        retreated_times(Some(0), len, k) == Some((len - k) as usize),
    decreases k,
{
    if k > 1 {
        lemma_retreat_prefix(len, (k - 1) as nat);
    }
    assert(retreated_times(Some(0), len, k) == retreated(
        retreated_times(Some(0), len, (k - 1) as nat),
        len,
    ));
}

/// On an empty list no sequence of moves changes the cursor.
pub proof fn lemma_empty_list_fixed(current: Option<usize>, k: nat)
    ensures
        advanced_times(current, 0, k) == current,
        retreated_times(current, 0, k) == current,
    decreases k,
{
    if k > 0 {
        lemma_empty_list_fixed(current, (k - 1) as nat);
    }
}

/// Any mix of moves that starts out of nothing or in bounds stays in bounds, and
/// leaves a selection exactly when the list is not empty.
pub proof fn lemma_moves_stay_in_bounds(current: Option<usize>, len: usize)
    requires
        in_bounds(current, len),
    ensures
        in_bounds(advanced(current, len), len),
        in_bounds(retreated(current, len), len),
        len > 0 ==> advanced(current, len) is Some && retreated(current, len) is Some,
        len == 0 ==> advanced(current, len) == current && retreated(current, len) == current,
{
}

} // verus!
