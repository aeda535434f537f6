use vstd::prelude::*;
use vstd::string::*;

verus! {

/// The pieces of `s` between the occurrences of `c`: one more than there are
/// occurrences, empty pieces included.
pub open spec fn split_on(s: Seq<char>, c: char) -> Seq<Seq<char>>
    decreases s.len(),
{
    if s.len() == 0 {
        seq![Seq::<char>::empty()]
    } else {
        let r = split_on(s.drop_last(), c);
        if s.last() == c {
            r.push(Seq::<char>::empty())
        } else {
            r.update(r.len() - 1, r.last().push(s.last()))
        }
    }
}

/// The pieces of `s` written one after the other with `sep` between each two.
pub open spec fn joined(s: Seq<Seq<char>>, sep: Seq<char>) -> Seq<char>
    decreases s.len(),
{
    if s.len() == 0 {
        Seq::empty()
    } else if s.len() == 1 {
        s[0]
    } else {
        joined(s.drop_last(), sep) + sep + s.last()
    }
}

proof fn lemma_split_nonempty(s: Seq<char>, c: char)
    ensures
        split_on(s, c).len() >= 1,
    decreases s.len(),
{
    if s.len() > 0 {
        lemma_split_nonempty(s.drop_last(), c);
    }
}

/// The pieces of `s` between the occurrences of `c`.
pub fn split(s: &str, c: char) -> (r: Vec<String>)
    ensures
        r@.map_values(|x: String| x@) == split_on(s@, c),
{
    let n = s.unicode_len();
    let mut parts: Vec<String> = Vec::new();
    let mut start: usize = 0;
    let mut i: usize = 0;
    assert(parts@.map_values(|x: String| x@).push(s@.subrange(0, 0)) =~~= split_on(
        s@.subrange(0, 0),
        c,
    ));
    while i < n
        invariant
            n == s@.len(),
            start <= i <= n,
            parts@.map_values(|x: String| x@).push(s@.subrange(start as int, i as int)) == split_on(
                s@.subrange(0, i as int),
                c,
            ),
        decreases n - i,
    {
        let d = s.get_char(i);
        let ghost pre = s@.subrange(0, i as int);
        let ghost before = parts@.map_values(|x: String| x@);
        assert(s@.subrange(0, i + 1).drop_last() =~= pre);
        assert(s@.subrange(0, i + 1).last() == d);
        if d == c {
            let piece = String::from_str(s.substring_char(start, i));
            parts.push(piece);
            start = i + 1;
            assert(parts@.map_values(|x: String| x@) =~= before.push(piece@));
            assert(s@.subrange(start as int, i + 1) =~= Seq::<char>::empty());
        } else {
            proof {
                lemma_split_nonempty(pre, c);
            }
            assert(s@.subrange(start as int, i + 1) =~= s@.subrange(start as int, i as int).push(d));
            assert(before.push(s@.subrange(start as int, i + 1)) =~~= before.push(
                s@.subrange(start as int, i as int),
            ).update(before.len() as int, s@.subrange(start as int, i as int).push(d)));
        }
        i = i + 1;
    }
    let piece = String::from_str(s.substring_char(start, n));
    let ghost before = parts@.map_values(|x: String| x@);
    parts.push(piece);
    assert(parts@.map_values(|x: String| x@) =~= before.push(piece@));
    assert(s@.subrange(0, n as int) =~= s@);
    parts
}

/// The pieces of `items` written one after the other with `sep` between each two.
pub fn join(items: &Vec<String>, sep: &str) -> (r: String)
    ensures
        r@ == joined(items@.map_values(|x: String| x@), sep@),
{
    let ghost all = items@.map_values(|x: String| x@);
    if items.len() == 0 {
        return String::new();
    }
    let mut r = items[0].clone();
    let mut i: usize = 1;
    assert(all.subrange(0, 1) =~= seq![all[0]]);
    while i < items.len()
        invariant
            1 <= i <= items@.len(),
            all == items@.map_values(|x: String| x@),
            r@ == joined(all.subrange(0, i as int), sep@),
        decreases items.len() - i,
    {
        r.append(sep);
        r.append(items[i].as_str());
        assert(all.subrange(0, i + 1).drop_last() =~= all.subrange(0, i as int));
        i = i + 1;
    }
    assert(all.subrange(0, i as int) =~= all);
    r
}

/// The preview of a file: its text where it could be read as text, else its
/// path.
pub fn file_preview(path: &String, content: Option<String>) -> (r: String)
    ensures
        match content {
            Some(c) => r@ == c@,
            None => r@ == path@,
        },
{
    match content {
        Some(c) => c,
        None => path.clone(),
    }
}

/// The lines of a directory listing with '/' after each directory: line `i`
/// is a directory where `dirs` says so at `i`.
pub open spec fn marked(lines: Seq<Seq<char>>, dirs: Seq<bool>) -> Seq<Seq<char>> {
    Seq::new(
        lines.len(),
        |i: int|
            if i < dirs.len() && dirs[i] {
                lines[i].push('/')
            } else {
                lines[i]
            },
    )
}

/// The preview of a directory: the lines of its listing but the last, which
/// follows the final line break, marked and written one per line.
pub open spec fn listing_preview_of(lines: Seq<Seq<char>>, dirs: Seq<bool>) -> Seq<char> {
    let m = marked(lines, dirs);
    if m.len() == 0 {
        Seq::empty()
    } else {
        joined(m.drop_last(), seq!['\n'])
    }
}

/// The preview of a directory out of the lines of its listing and which of
/// them are directories.
pub fn listing_preview(lines: &Vec<String>, dirs: &Vec<bool>) -> (r: String)
    ensures
        r@ == listing_preview_of(lines@.map_values(|x: String| x@), dirs@),
{
    let ghost m = marked(lines@.map_values(|x: String| x@), dirs@);
    if lines.len() == 0 {
        return String::new();
    }
    let mut shown: Vec<String> = Vec::new();
    let mut i: usize = 0;
    while i + 1 < lines.len()
        invariant
            i + 1 <= lines@.len(),
            m == marked(lines@.map_values(|x: String| x@), dirs@),
            shown@.map_values(|x: String| x@) == m.subrange(0, i as int),
        decreases lines.len() - i,
    {
        let ghost before = shown@.map_values(|x: String| x@);
        let line = if i < dirs.len() && dirs[i] {
            lines[i].clone().concat("/")
        } else {
            lines[i].clone()
        };
        proof {
            reveal_strlit("/");
        }
        assert(line@ =~= m[i as int]);
        let ghost raw = shown@;
        shown.push(line);
        assert(shown@ == raw.push(line));
        assert(shown@.map_values(|x: String| x@) =~= before.push(line@));
        assert(m.subrange(0, i + 1) =~= m.subrange(0, i as int).push(m[i as int]));
        i = i + 1;
    }
    assert(m.subrange(0, i as int) =~~= m.drop_last());
    let r = join(&shown, "\n");
    proof {
        reveal_strlit("\n");
    }
    assert("\n"@ =~= seq!['\n']);
    r
}

} // verus!
