use vstd::prelude::*;
use vstd::string::*;
use chrono::DateTime;
use crate::path::{extension, extension_of};

verus! {

/// The pattern in which the metadata pane shows a time.
pub const TIME_PATTERN: &'static str = "%Y-%m-%d %H:%M:%S";

/// The text of the UTC time `secs` seconds and `nanos` nanoseconds after the
/// epoch, in the strftime pattern `pattern`.
pub uninterp spec fn utc_text(secs: i64, nanos: u32, pattern: Seq<char>) -> Seq<char>;

/// The quoted and escaped form of a string, as Rust's `Debug` writes it.
pub uninterp spec fn debug_text(s: Seq<char>) -> Seq<char>;

/// Relies on chrono's `DateTime::from_timestamp`, which gives no time only for
/// a day out of its range (years past 262142) or invalid nanoseconds, and on
/// `DateTime::format`, whose text depends on the time and the pattern alone.
/// The pattern is the pane's own, which holds only valid specifiers, so the
/// formatting cannot fail.
#[verifier::external_body]
fn format_utc(secs: i64, nanos: u32, pattern: &str) -> (r: Option<String>)
    requires
        pattern@ == TIME_PATTERN@,
    ensures
        r matches Some(t) ==> t@ == utc_text(secs, nanos, pattern@),
        representable(secs, nanos) ==> r is Some,
{
    match DateTime::from_timestamp(secs, nanos) {
        Some(dt) => Some(dt.format(pattern).to_string()),
        None => None,
    }
}

/// Relies on `<str as Debug>::fmt`, whose text depends on the characters alone.
#[verifier::external_body]
fn debug_quoted(s: &str) -> (r: String)
    ensures
        r@ == debug_text(s@),
{
    format!("{:?}", s)
}

/// A time that chrono can hold: from the epoch up to well within its last
/// year, with valid nanoseconds.
pub open spec fn representable(secs: i64, nanos: u32) -> bool {
    0 <= secs <= 8_000_000_000_000 && nanos < 1_000_000_000
}

/// What the metadata pane shows in place of a time that cannot be had.
pub open spec fn unavailable() -> Seq<char> {
    seq!['U', 'n', 'a', 'v', 'a', 'i', 'l', 'a', 'b', 'l', 'e']
}

/// The metadata pane's text, out of the quoted extension, the size in KiB and
/// the two times.
pub open spec fn info_of(ext: Seq<char>, size: Seq<char>, created: Seq<char>, modified: Seq<char>) -> Seq<char> {
    "Extension:"@ + ext + "\nSize: "@ + size + " KiB\nCreated: "@ + created + "\nModified: "@ + modified
        + "\n"@
}

/// `t` is a text that a time field may show for `stamp`: the formatted time,
/// which a representable time always gets, or the word for a time that cannot
/// be had.
pub open spec fn time_field_of(stamp: Option<(i64, u32)>, t: Seq<char>) -> bool {
    match stamp {
        Some((secs, nanos)) => if representable(secs, nanos) {
            t == utc_text(secs, nanos, TIME_PATTERN@)
        } else {
            t == utc_text(secs, nanos, TIME_PATTERN@) || t == unavailable()
        },
        None => t == unavailable(),
    }
}

/// The extension that the metadata pane names: the path's own, else "none".
pub open spec fn shown_extension(path: Seq<char>) -> Seq<char> {
    match extension_of(path) {
        Some(e) => e,
        None => seq!['n', 'o', 'n', 'e'],
    }
}

/// What the metadata pane shows where no entry is highlighted.
pub open spec fn no_entry_text() -> Seq<char> {
    "No Permission for this Folder, PageDown to return"@
}

/// What the outside world tells of one entry: its size, already written in
/// KiB, and its creation and change times as seconds and nanoseconds after the
/// epoch, where they can be had.
pub struct FileFacts {
    pub size_text: String,
    pub created: Option<(i64, u32)>,
    pub modified: Option<(i64, u32)>,
}

/// A time field: the formatted time, or the word for a time that cannot be had.
pub fn time_field(formatted: Option<String>) -> (r: String)
    ensures
        match formatted {
            Some(t) => r@ == t@,
            None => r@ == unavailable(),
        },
{
    match formatted {
        Some(t) => t,
        None => {
            let r = String::from_str("Unavailable");
            proof {
                reveal_strlit("Unavailable");
            }
            assert(r@ =~= unavailable());
            r
        },
    }
}

/// The time field for `stamp`.
pub fn timestamp_field(stamp: Option<(i64, u32)>) -> (r: String)
    ensures
        time_field_of(stamp, r@),
{
    match stamp {
        Some((secs, nanos)) => time_field(format_utc(secs, nanos, TIME_PATTERN)),
        None => time_field(None),
    }
}

/// The metadata pane's text.
pub fn info_text(ext: &str, size: &str, created: &str, modified: &str) -> (r: String)
    ensures
        r@ == info_of(ext@, size@, created@, modified@),
{
    let mut r = String::from_str("Extension:");
    r.append(ext);
    r.append("\nSize: ");
    r.append(size);
    r.append(" KiB\nCreated: ");
    r.append(created);
    r.append("\nModified: ");
    r.append(modified);
    r.append("\n");
    r
}

/// The metadata pane's text for the highlighted entry `entry`, given what the
/// outside world told of it: a notice where nothing is highlighted, nothing
/// where its metadata could not be read.
pub fn file_info_text(entry: Option<&String>, facts: Option<&FileFacts>) -> (r: String)
    ensures
        entry is None ==> r@ == no_entry_text(),
        entry is Some && facts is None ==> r@ == Seq::<char>::empty(),
        entry matches Some(e) ==> (facts matches Some(f) ==> exists|c: Seq<char>, m: Seq<char>|
            time_field_of(f.created, c) && time_field_of(f.modified, m) && r@ == info_of(
                debug_text(shown_extension(e@)),
                f.size_text@,
                c,
                m,
            )),
{
    match entry {
        None => String::from_str("No Permission for this Folder, PageDown to return"),
        Some(e) => match facts {
            None => String::new(),
            Some(f) => {
                let ext = match extension(e.as_str()) {
                    Some(x) => x,
                    None => {
                        let n = String::from_str("none");
                        proof {
                            reveal_strlit("none");
                        }
                        assert(n@ =~= seq!['n', 'o', 'n', 'e']);
                        n
                    },
                };
                let quoted = debug_quoted(ext.as_str());
                let c = timestamp_field(f.created);
                let m = timestamp_field(f.modified);
                let r = info_text(quoted.as_str(), f.size_text.as_str(), c.as_str(), m.as_str());
                assert(time_field_of(f.created, c@) && time_field_of(f.modified, m@) && r@ == info_of(
                    debug_text(shown_extension(e@)),
                    f.size_text@,
                    c@,
                    m@,
                ));
                r
            },
        },
    }
}

} // verus!
