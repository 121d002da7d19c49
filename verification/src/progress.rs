//! The progress lines that `dd` writes.
use vstd::prelude::*;
use vstd::string::*;

use crate::text;
use crate::text::{find, parse_u64, trim, Class};
use crate::text_laws;

verus! {

/// What follows the count of bytes, in the order in which it is looked for.
pub open spec fn dd_markers() -> Seq<Seq<char>> {
    seq![" bytes ("@, " bytes transferred"@, " bytes copied"@]
}

/// The number in front of the first of `markers` that stands in `t`.
pub open spec fn count_before(t: Seq<char>, markers: Seq<Seq<char>>) -> Option<u64>
    decreases markers.len(),
{
    if markers.len() == 0 {
        None
    } else {
        match text::position(t, markers[0]) {
            Some(k) => text::number(t.take(k)),
            None => count_before(t, markers.drop_first()),
        }
    }
}

/// The count of bytes that a line of `dd` reports.
pub open spec fn dd_progress(line: Seq<char>) -> Option<u64> {
    count_before(text::trimmed(line), dd_markers())
}

/// Reads the count of bytes in a progress line of `dd`.
///
/// The count stands in front of ` bytes (`, ` bytes transferred` or ` bytes copied`; the first of
/// these that occurs in the line decides, also where what precedes it is no number.
pub fn parse_dd_progress(line: &str) -> (r: Option<u64>)
    ensures
        r == dd_progress(line@),
{
    proof {
        reveal_with_fuel(count_before, 4);
        let m = dd_markers();
        assert(m.drop_first() =~= seq![" bytes transferred"@, " bytes copied"@]);
        assert(m.drop_first().drop_first() =~= seq![" bytes copied"@]);
        assert(m.drop_first().drop_first().drop_first() =~= seq![]);
    }
    let t = trim(line);
    if let Some(end) = find(t, " bytes (") {
        let count = t.substring_char(0, end);
        assert(count@ =~= t@.take(end as int));
        parse_u64(count)
    } else if let Some(end) = find(t, " bytes transferred") {
        let count = t.substring_char(0, end);
        assert(count@ =~= t@.take(end as int));
        parse_u64(count)
    } else if let Some(end) = find(t, " bytes copied") {
        let count = t.substring_char(0, end);
        assert(count@ =~= t@.take(end as int));
        parse_u64(count)
    } else {
        None
    }
}

proof fn trimmed_end_keeps(s: Seq<char>, m: int)
    requires
        0 < m <= s.len(),
        !text::white(s[m - 1]),
    ensures
        m <= text::trimmed_end(s, Class::White).len() <= s.len(),
        text::trimmed_end(s, Class::White) == s.take(text::trimmed_end(s, Class::White).len() as int),
    decreases s.len(),
{
    if text::white(s.last()) {
        trimmed_end_keeps(s.drop_last(), m);
        let k = text::trimmed_end(s, Class::White).len() as int;
        assert(s.drop_last().take(k) =~= s.take(k));
    } else {
        assert(s.take(s.len() as int) =~= s);
    }
}

/// A line that begins with a count and a marker keeps both when it is trimmed, and the marker's
/// first place is right behind the count.
proof fn count_leads(n: u64, mark: Seq<char>, rest: Seq<char>)
    requires
        mark.len() > 0,
        mark[0] == ' ',
        !text::white(mark.last()),
    ensures
        ({
            let line = text::decimal(n as nat) + mark + rest;
            let t = text::trimmed(line);
            &&& t.len() <= line.len()
            &&& t == line.take(t.len() as int)
            &&& text::position(t, mark) == Some(text::decimal(n as nat).len() as int)
            &&& text::number(t.take(text::decimal(n as nat).len() as int)) == Some(n)
        }),
{
    let d = text::decimal(n as nat);
    let line = d + mark + rest;
    let m = (d.len() + mark.len()) as int;
    text::decimal_digits(n as nat);
    assert(text::digit(d[0]));
    assert(line[0] == d[0]);
    assert(line[m - 1] == mark.last());
    assert(text::trimmed_start(line, Class::White) == line);
    trimmed_end_keeps(line, m);
    let t = text::trimmed(line);
    assert(t.take(d.len() as int) =~= d);
    assert(t.subrange(d.len() as int, m) =~= mark);
    assert(text::occurs_at(t, mark, d.len() as int));
    assert forall|j: int| 0 <= j < d.len() implies t[j] != mark[0] by {
        assert(text::digit(d[j]));
        assert(t[j] == d[j]);
    }
    first_place(t, mark, d.len() as int);
    text::numbers_read_back(n);
}

/// An occurrence before which the first character of the pattern does not stand is the first.
proof fn first_place(t: Seq<char>, mark: Seq<char>, k: int)
    requires
        mark.len() > 0,
        text::occurs_at(t, mark, k),
        forall|j: int| 0 <= j < k ==> t[j] != mark[0],
    ensures
        text::position(t, mark) == Some(k),
{
    text::position_is_first(t, mark);
    assert(text::has_text(t, mark));
    let i = text::position(t, mark)->0;
    assert(t.subrange(i, i + mark.len())[0] == t[i]);
}

/// Whatever follows it, a count in front of ` bytes (` is read.
pub proof fn modern_line_is_read(n: u64, rest: Seq<char>)
    ensures
        dd_progress(text::decimal(n as nat) + " bytes ("@ + rest) == Some(n),
{
    reveal_strlit(" bytes (");
    count_leads(n, " bytes ("@, rest);
}

/// A count in front of ` bytes transferred` is read where ` bytes (` does not occur in the line.
pub proof fn classic_line_is_read(n: u64, rest: Seq<char>)
    requires
        !text::has_text(text::decimal(n as nat) + " bytes transferred"@ + rest, " bytes ("@),
    ensures
        dd_progress(text::decimal(n as nat) + " bytes transferred"@ + rest) == Some(n),
{
    reveal_strlit(" bytes transferred");
    reveal_with_fuel(count_before, 3);
    let line = text::decimal(n as nat) + " bytes transferred"@ + rest;
    count_leads(n, " bytes transferred"@, rest);
    absent_when_trimmed(line, " bytes ("@);
    assert(dd_markers().drop_first()[0] == " bytes transferred"@);
}

/// A count in front of ` bytes copied` is read where neither of the other markers occurs in the
/// line.
pub proof fn copied_line_is_read(n: u64, rest: Seq<char>)
    requires
        !text::has_text(text::decimal(n as nat) + " bytes copied"@ + rest, " bytes ("@),
        !text::has_text(text::decimal(n as nat) + " bytes copied"@ + rest, " bytes transferred"@),
    ensures
        dd_progress(text::decimal(n as nat) + " bytes copied"@ + rest) == Some(n),
{
    reveal_strlit(" bytes copied");
    reveal_with_fuel(count_before, 4);
    let line = text::decimal(n as nat) + " bytes copied"@ + rest;
    count_leads(n, " bytes copied"@, rest);
    absent_when_trimmed(line, " bytes ("@);
    absent_when_trimmed(line, " bytes transferred"@);
    assert(dd_markers().drop_first()[0] == " bytes transferred"@);
    assert(dd_markers().drop_first().drop_first()[0] == " bytes copied"@);
}

proof fn absent_when_trimmed(line: Seq<char>, mark: Seq<char>)
    requires
        text::trimmed(line).len() <= line.len(),
        text::trimmed(line) == line.take(text::trimmed(line).len() as int),
        !text::has_text(line, mark),
    ensures
        text::position(text::trimmed(line), mark) is None,
{
    let t = text::trimmed(line);
    text::position_is_first(t, mark);
    if text::has_text(t, mark) {
        let i = choose|i: int| #[trigger] text::occurs_at(t, mark, i);
        assert(line.subrange(i, i + mark.len()) =~= t.subrange(i, i + mark.len()));
        assert(text::occurs_at(line, mark, i));
    }
}

/// `a` ends where `mark` stands first in `a + mark + b`.
pub open spec fn first_mark(a: Seq<char>, mark: Seq<char>, b: Seq<char>) -> bool {
    forall|x: Seq<char>, y: Seq<char>|
        a + mark + b == #[trigger] (x + mark + y) ==> x.len() >= a.len()
}

/// The count is all that stands in front of ` bytes (` in the trimmed line; in front of ` bytes
/// transferred` where there is none of those; and in front of ` bytes copied` where there is
/// neither. What is no number there is no count, and a line without any of the three has none.
pub proof fn count_stands_before_its_marker(line: Seq<char>, a: Seq<char>, b: Seq<char>)
    ensures
        text::trimmed(line) == a + " bytes ("@ + b && first_mark(a, " bytes ("@, b) ==> dd_progress(
            line,
        ) == text::number(a),
        !text::has_text(text::trimmed(line), " bytes ("@) && text::trimmed(line) == a
            + " bytes transferred"@ + b && first_mark(a, " bytes transferred"@, b) ==> dd_progress(
            line,
        ) == text::number(a),
        !text::has_text(text::trimmed(line), " bytes ("@) && !text::has_text(
            text::trimmed(line),
            " bytes transferred"@,
        ) && text::trimmed(line) == a + " bytes copied"@ + b && first_mark(a, " bytes copied"@, b)
            ==> dd_progress(line) == text::number(a),
        !text::has_text(text::trimmed(line), " bytes ("@) && !text::has_text(
            text::trimmed(line),
            " bytes transferred"@,
        ) && !text::has_text(text::trimmed(line), " bytes copied"@) ==> dd_progress(line) is None,
{
    reveal_with_fuel(count_before, 4);
    let t = text::trimmed(line);
    let m = dd_markers();
    assert(m.drop_first() =~= seq![" bytes transferred"@, " bytes copied"@]);
    assert(m.drop_first().drop_first() =~= seq![" bytes copied"@]);
    assert(m.drop_first().drop_first().drop_first() =~= seq![]);
    text::position_is_first(t, " bytes ("@);
    text::position_is_first(t, " bytes transferred"@);
    text::position_is_first(t, " bytes copied"@);
    if t == a + " bytes ("@ + b && first_mark(a, " bytes ("@, b) {
        text_laws::first_occurrence_is_found(a, " bytes ("@, b);
        assert(t.take(a.len() as int) =~= a);
    }
    if t == a + " bytes transferred"@ + b && first_mark(a, " bytes transferred"@, b) {
        text_laws::first_occurrence_is_found(a, " bytes transferred"@, b);
        assert(t.take(a.len() as int) =~= a);
    }
    if t == a + " bytes copied"@ + b && first_mark(a, " bytes copied"@, b) {
        text_laws::first_occurrence_is_found(a, " bytes copied"@, b);
        assert(t.take(a.len() as int) =~= a);
    }
}

} // verus!
