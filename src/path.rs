use vstd::prelude::*;
use vstd::string::*;

verus! {

/// Index of the last `c` in `s`, or -1 where there is none.
pub open spec fn last_index_of(s: Seq<char>, c: char) -> int
    decreases s.len(),
{
    if s.len() == 0 {
        -1
    } else if s.last() == c {
        s.len() - 1
    } else {
        last_index_of(s.drop_last(), c)
    }
}

/// Index of the last '/' in `s`, or -1 where there is none.
pub open spec fn last_separator_of(s: Seq<char>) -> int {
    last_index_of(s, '/')
}

/// The extension of a path: what follows the last '.' of its last segment,
/// where that '.' is not the segment's first character. A segment without
/// such a '.', and the segment "..", have none.
pub open spec fn extension_of(s: Seq<char>) -> Option<Seq<char>> {
    let b = basename_of(s);
    let k = last_index_of(b, '.');
    if k <= 0 || b == seq!['.', '.'] {
        None
    } else {
        Some(b.subrange(k + 1, b.len() as int))
    }
}

/// The last segment of a path: what follows its last '/', or all of it.
pub open spec fn basename_of(s: Seq<char>) -> Seq<char> {
    s.subrange(last_separator_of(s) + 1, s.len() as int)
}

/// The directory above a path. A path without '/' has the empty parent, and
/// the root is its own parent.
pub open spec fn parent_of(s: Seq<char>) -> Seq<char> {
    let k = last_separator_of(s);
    if k < 0 {
        Seq::empty()
    } else if k == 0 {
        seq!['/']
    } else {
        s.subrange(0, k)
    }
}

/// What precedes the last '/' of a path, or all of it where it has none.
pub open spec fn dirname_of(s: Seq<char>) -> Seq<char> {
    let k = last_separator_of(s);
    if k < 0 {
        s
    } else {
        s.subrange(0, k)
    }
}

/// How a list entry is labelled: its last segment, with '/' after a directory.
pub open spec fn label_of(s: Seq<char>, is_dir: bool) -> Seq<char> {
    if is_dir {
        basename_of(s).push('/')
    } else {
        basename_of(s)
    }
}

proof fn lemma_last_index_bounds(s: Seq<char>, c: char)
    ensures
        -1 <= last_index_of(s, c) < s.len(),
        last_index_of(s, c) >= 0 ==> s[last_index_of(s, c)] == c,
        forall|j: int| last_index_of(s, c) < j < s.len() ==> s[j] != c,
    decreases s.len(),
{
    if s.len() > 0 && s.last() != c {
        lemma_last_index_bounds(s.drop_last(), c);
        assert forall|j: int| last_index_of(s, c) < j < s.len() implies s[j] != c by {
            if j < s.len() - 1 {
                assert(s[j] == s.drop_last()[j]);
            }
        }
    }
}

/// The root is its own parent.
pub proof fn lemma_root_is_own_parent()
    ensures
        parent_of(seq!['/']) == seq!['/'],
{
    let r = seq!['/'];
    assert(r.last() == '/');
    assert(last_index_of(r, '/') == 0);
}

/// The position of the last `c` in `s`.
pub fn last_index(s: &str, c: char) -> (r: Option<usize>)
    ensures
        match r {
            Some(k) => last_index_of(s@, c) == k as int,
            None => last_index_of(s@, c) == -1,
        },
{
    let n = s.unicode_len();
    let mut last: Option<usize> = None;
    let mut i: usize = 0;
    while i < n
        invariant
            n == s@.len(),
            i <= n,
            match last {
                Some(k) => last_index_of(s@.subrange(0, i as int), c) == k as int,
                None => last_index_of(s@.subrange(0, i as int), c) == -1,
            },
        decreases n - i,
    {
        let d = s.get_char(i);
        assert(s@.subrange(0, i + 1).drop_last() =~= s@.subrange(0, i as int));
        if d == c {
            last = Some(i);
        }
        i = i + 1;
    }
    assert(s@.subrange(0, n as int) =~= s@);
    last
}

/// The position of the last '/' in `path`.
pub fn last_separator(path: &str) -> (r: Option<usize>)
    ensures
        match r {
            Some(k) => last_separator_of(path@) == k as int,
            None => last_separator_of(path@) == -1,
        },
{
    last_index(path, '/')
}

/// The last segment of `path`.
pub fn basename(path: &str) -> (r: String)
    ensures
        r@ == basename_of(path@),
{
    proof {
        lemma_last_index_bounds(path@, '/');
    }
    let n = path.unicode_len();
    let from = match last_separator(path) {
        Some(k) => k + 1,
        None => 0,
    };
    String::from_str(path.substring_char(from, n))
}

/// The directory above `path`.
pub fn parent(path: &str) -> (r: String)
    ensures
        r@ == parent_of(path@),
{
    proof {
        lemma_last_index_bounds(path@, '/');
    }
    match last_separator(path) {
        None => String::new(),
        Some(k) => if k == 0 {
            let r = String::from_str("/");
            proof {
                reveal_strlit("/");
                assert(r@ =~= seq!['/']);
            }
            r
        } else {
            String::from_str(path.substring_char(0, k))
        },
    }
}

/// What precedes the last '/' of `path`, or all of it where it has none.
pub fn dirname(path: &str) -> (r: String)
    ensures
        r@ == dirname_of(path@),
{
    proof {
        lemma_last_index_bounds(path@, '/');
    }
    match last_separator(path) {
        None => String::from_str(path),
        Some(k) => String::from_str(path.substring_char(0, k)),
    }
}

/// The label of a list entry: its last segment, with '/' after a directory.
pub fn entry_label(path: &str, is_dir: bool) -> (r: String)
    ensures
        r@ == label_of(path@, is_dir),
{
    let name = basename(path);
    if is_dir {
        let r = name.concat("/");
        proof {
            reveal_strlit("/");
            assert(r@ =~= basename_of(path@).push('/'));
        }
        r
    } else {
        name
    }
}

/// The extension of `path`, where it has one.
pub fn extension(path: &str) -> (r: Option<String>)
    ensures
        match r {
            Some(e) => extension_of(path@) == Some(e@),
            None => extension_of(path@) is None,
        },
{
    let b = basename(path);
    proof {
        lemma_last_index_bounds(b@, '.');
    }
    match last_index(b.as_str(), '.') {
        None => None,
        Some(k) => if k == 0 || is_parent_segment(b.as_str()) {
            None
        } else {
            let n = b.as_str().unicode_len();
            Some(String::from_str(b.as_str().substring_char(k + 1, n)))
        },
    }
}

/// Whether `s` is the segment "..".
fn is_parent_segment(s: &str) -> (r: bool)
    ensures
        r == (s@ == seq!['.', '.']),
{
    if s.unicode_len() != 2 {
        return false;
    }
    let r = s.get_char(0) == '.' && s.get_char(1) == '.';
    if r {
        assert(s@ =~= seq!['.', '.']);
    }
    r
}

} // verus!
