//! Text as sequences of characters: trimming, searching, splitting and numbers.
use vstd::prelude::*;
use vstd::string::*;

verus! {

// ---------------------------------------------------------------------------
// Character classes
// ---------------------------------------------------------------------------

/// The characters with Unicode's `White_Space` property.
pub open spec fn white(c: char) -> bool {
    let n = c as u32;
    ||| 9 <= n <= 13
    ||| n == 0x20
    ||| n == 0x85
    ||| n == 0xA0
    ||| n == 0x1680
    ||| 0x2000 <= n <= 0x200A
    ||| n == 0x2028
    ||| n == 0x2029
    ||| n == 0x202F
    ||| n == 0x205F
    ||| n == 0x3000
}

/// Whether `c` has Unicode's `White_Space` property.
pub fn is_white(c: char) -> (r: bool)
    ensures
        r == white(c),
{
    let n: u32 = c as u32;
    (9 <= n && n <= 13) || n == 0x20 || n == 0x85 || n == 0xA0 || n == 0x1680 || (0x2000 <= n && n
        <= 0x200A) || n == 0x2028 || n == 0x2029 || n == 0x202F || n == 0x205F || n == 0x3000
}

/// The decimal digits `0` to `9`.
pub open spec fn digit(c: char) -> bool {
    '0' <= c <= '9'
}

/// `c` with the letters `A` to `Z` mapped to `a` to `z`.
pub open spec fn ascii_lower(c: char) -> char {
    if 'A' <= c <= 'Z' {
        ((c as u32) + 32) as char
    } else {
        c
    }
}

/// Every character of `s` is an ASCII character.
pub open spec fn all_ascii(s: Seq<char>) -> bool {
    forall|i: int| 0 <= i < s.len() ==> (#[trigger] s[i] as u32) < 128
}

/// What a trim removes at the ends of a text.
#[derive(Clone, Copy)]
pub enum Class {
    /// White space.
    White,
    /// One character.
    Only(char),
}

impl Class {
    /// The characters of the class.
    pub open spec fn has(self, c: char) -> bool {
        match self {
            Class::White => white(c),
            Class::Only(d) => c == d,
        }
    }

    /// Whether `c` belongs to the class.
    pub fn holds(self, c: char) -> (r: bool)
        ensures
            r == self.has(c),
    {
        match self {
            Class::White => is_white(c),
            Class::Only(d) => c == d,
        }
    }
}

/// The characters of `s`, one by one.
pub fn chars_of(s: &str) -> (r: Vec<char>)
    ensures
        r@ == s@,
{
    let mut r: Vec<char> = Vec::new();
    for c in it: s.chars()
        invariant
            it.seq() == s@,
            r@ == s@.take(it.index() as int),
    {
        r.push(c);
    }
    r
}

/// Whether two texts hold the same characters.
pub fn same(a: &str, b: &str) -> (r: bool)
    ensures
        r == (a@ == b@),
{
    let x = chars_of(a);
    let y = chars_of(b);
    if x.len() != y.len() {
        return false;
    }
    for i in 0..x.len()
        invariant
            x@ == a@,
            y@ == b@,
            x.len() == y.len(),
            forall|j: int| 0 <= j < i ==> x[j] == y[j],
    {
        if x[i] != y[i] {
            assert(a@[i as int] != b@[i as int]);
            return false;
        }
    }
    assert(a@ =~= b@);
    true
}

// ---------------------------------------------------------------------------
// Trimming
// ---------------------------------------------------------------------------

/// `s` without its leading characters of class `k`.
pub open spec fn trimmed_start(s: Seq<char>, k: Class) -> Seq<char>
    decreases s.len(),
{
    if s.len() > 0 && k.has(s[0]) {
        trimmed_start(s.drop_first(), k)
    } else {
        s
    }
}

/// `s` without its trailing characters of class `k`.
pub open spec fn trimmed_end(s: Seq<char>, k: Class) -> Seq<char>
    decreases s.len(),
{
    if s.len() > 0 && k.has(s.last()) {
        trimmed_end(s.drop_last(), k)
    } else {
        s
    }
}

/// `s` without its leading and trailing characters of class `k`.
pub open spec fn trimmed_of(s: Seq<char>, k: Class) -> Seq<char> {
    trimmed_end(trimmed_start(s, k), k)
}

/// `s` without the white space around it.
pub open spec fn trimmed(s: Seq<char>) -> Seq<char> {
    trimmed_of(s, Class::White)
}

/// Removes the characters of class `k` at both ends.
pub fn trim_of(s: &str, k: Class) -> (r: &str)
    ensures
        r@ == trimmed_of(s@, k),
{
    let cs = chars_of(s);
    let n: usize = cs.len();
    let mut a: usize = 0;
    assert(cs@.subrange(0, n as int) == cs@);
    while a < n && k.holds(cs[a])
        invariant
            n == cs@.len(),
            a <= n,
            trimmed_start(cs@.subrange(a as int, n as int), k) == trimmed_start(cs@, k),
        ensures
            a <= n,
            a < n ==> !k.has(cs@[a as int]),
            trimmed_start(cs@.subrange(a as int, n as int), k) == trimmed_start(cs@, k),
        decreases n - a,
    {
        assert(cs@.subrange(a as int, n as int).drop_first() =~= cs@.subrange(a + 1, n as int));
        a = a + 1;
    }
    let ghost front = cs@.subrange(a as int, n as int);
    assert(front == trimmed_start(cs@, k));
    let mut b: usize = n;
    while b > a && k.holds(cs[b - 1])
        invariant
            n == cs@.len(),
            a <= b <= n,
            trimmed_end(cs@.subrange(a as int, b as int), k) == trimmed_end(front, k),
        ensures
            a <= b <= n,
            b > a ==> !k.has(cs@[b - 1]),
            trimmed_end(cs@.subrange(a as int, b as int), k) == trimmed_end(front, k),
        decreases b,
    {
        assert(cs@.subrange(a as int, b as int).drop_last() =~= cs@.subrange(a as int, b - 1));
        b = b - 1;
    }
    s.substring_char(a, b)
}

/// Removes the white space at both ends.
pub fn trim(s: &str) -> (r: &str)
    ensures
        r@ == trimmed(s@),
{
    trim_of(s, Class::White)
}

// ---------------------------------------------------------------------------
// Prefixes, suffixes and searching
// ---------------------------------------------------------------------------

/// `p` stands in `s` at position `i`.
pub open spec fn occurs_at(s: Seq<char>, p: Seq<char>, i: int) -> bool {
    &&& 0 <= i
    &&& i + p.len() <= s.len()
    &&& s.subrange(i, i + p.len()) == p
}

/// `p` stands somewhere in `s`.
pub open spec fn has_text(s: Seq<char>, p: Seq<char>) -> bool {
    exists|i: int| #[trigger] occurs_at(s, p, i)
}

/// The first position at or behind `i` at which `p` stands in `s`.
pub open spec fn position_from(s: Seq<char>, p: Seq<char>, i: int) -> Option<int>
    decreases s.len() + 1 - i,
{
    if i + p.len() > s.len() {
        None
    } else if occurs_at(s, p, i) {
        Some(i)
    } else {
        position_from(s, p, i + 1)
    }
}

/// The first position at which `p` stands in `s`.
pub open spec fn position(s: Seq<char>, p: Seq<char>) -> Option<int> {
    position_from(s, p, 0)
}

/// `position` gives the least place of an occurrence, and gives none exactly where there is no
/// occurrence.
pub proof fn position_is_first(s: Seq<char>, p: Seq<char>)
    ensures
        position(s, p) matches Some(i) ==> occurs_at(s, p, i) && forall|j: int|
            0 <= j < i ==> !#[trigger] occurs_at(s, p, j),
        position(s, p) is None <==> !has_text(s, p),
{
    position_from_is_first(s, p, 0);
}

proof fn position_from_is_first(s: Seq<char>, p: Seq<char>, i: int)
    requires
        0 <= i,
    ensures
        position_from(s, p, i) matches Some(k) ==> i <= k && occurs_at(s, p, k) && forall|j: int|
            i <= j < k ==> !#[trigger] occurs_at(s, p, j),
        position_from(s, p, i) is None ==> forall|j: int| i <= j ==> !#[trigger] occurs_at(s, p, j),
    decreases s.len() + 1 - i,
{
    if i + p.len() <= s.len() && !occurs_at(s, p, i) {
        position_from_is_first(s, p, i + 1);
    }
}

/// Whether `p` stands in `s` at position `i`.
fn stands_at(s: &Vec<char>, p: &Vec<char>, i: usize) -> (r: bool)
    requires
        i + p@.len() <= s@.len(),
    ensures
        r == occurs_at(s@, p@, i as int),
{
    for j in 0..p.len()
        invariant
            i + p.len() <= s.len(),
            forall|m: int| 0 <= m < j ==> s@[i + m] == p@[m],
    {
        if s[i + j] != p[j] {
            assert(s@.subrange(i as int, i + p@.len())[j as int] != p@[j as int]);
            return false;
        }
    }
    assert(s@.subrange(i as int, i + p@.len()) =~= p@);
    true
}

/// The first position, counted in characters, at which `p` stands in `s`.
pub fn find(s: &str, p: &str) -> (r: Option<usize>)
    ensures
        r matches Some(i) ==> position(s@, p@) == Some(i as int) && i + p@.len() <= s@.len(),
        r is None ==> position(s@, p@) is None,
{
    let cs = chars_of(s);
    let ps = chars_of(p);
    let n: usize = cs.len();
    let m: usize = ps.len();
    let mut i: usize = 0;
    while i <= n && m <= n - i
        invariant
            cs@ == s@,
            ps@ == p@,
            n == cs@.len(),
            m == ps@.len(),
            i <= n + 1,
            position_from(s@, p@, i as int) == position(s@, p@),
        decreases n + 1 - i,
    {
        if stands_at(&cs, &ps, i) {
            return Some(i);
        }
        if i == n {
            assert(position_from(s@, p@, i + 1) is None);
            return None;
        }
        i = i + 1;
    }
    None
}

/// Whether `p` stands somewhere in `s`.
pub fn contains(s: &str, p: &str) -> (r: bool)
    ensures
        r == has_text(s@, p@),
{
    proof {
        position_is_first(s@, p@);
    }
    find(s, p).is_some()
}

/// Whether `s` begins with `p`.
pub fn starts_with(s: &str, p: &str) -> (r: bool)
    ensures
        r == p@.is_prefix_of(s@),
{
    let cs = chars_of(s);
    let ps = chars_of(p);
    ps.len() <= cs.len() && stands_at(&cs, &ps, 0)
}

/// Whether `s` ends with `p`.
pub fn ends_with(s: &str, p: &str) -> (r: bool)
    ensures
        r == p@.is_suffix_of(s@),
{
    let cs = chars_of(s);
    let ps = chars_of(p);
    ps.len() <= cs.len() && stands_at(&cs, &ps, cs.len() - ps.len())
}

/// What follows the prefix `p` of `s`.
pub open spec fn after_prefix(s: Seq<char>, p: Seq<char>) -> Option<Seq<char>> {
    if p.is_prefix_of(s) {
        Some(s.skip(p.len() as int))
    } else {
        None
    }
}

/// What follows `p` where `s` begins with it.
pub fn strip_prefix<'a>(s: &'a str, p: &str) -> (r: Option<&'a str>)
    ensures
        r matches Some(t) ==> after_prefix(s@, p@) == Some(t@),
        r is None ==> after_prefix(s@, p@) is None,
{
    if starts_with(s, p) {
        let n: usize = s.unicode_len();
        let m: usize = p.unicode_len();
        Some(s.substring_char(m, n))
    } else {
        None
    }
}

/// What precedes the character `c` at the end of `s`.
pub open spec fn before_last(s: Seq<char>, c: char) -> Option<Seq<char>> {
    if s.len() > 0 && s.last() == c {
        Some(s.drop_last())
    } else {
        None
    }
}

/// What precedes `c` where `s` ends with it.
pub fn strip_suffix<'a>(s: &'a str, c: char) -> (r: Option<&'a str>)
    ensures
        r matches Some(t) ==> before_last(s@, c) == Some(t@),
        r is None ==> before_last(s@, c) is None,
{
    let n: usize = s.unicode_len();
    if n > 0 && s.get_char(n - 1) == c {
        let t = s.substring_char(0, n - 1);
        assert(t@ =~= s@.drop_last());
        Some(t)
    } else {
        None
    }
}

// ---------------------------------------------------------------------------
// Splitting and replacing
// ---------------------------------------------------------------------------

/// The texts that a list of slices holds.
pub open spec fn texts(v: Seq<&str>) -> Seq<Seq<char>> {
    v.map_values(|t: &str| t@)
}

/// The first position at or behind `i` of the character `c` in `s`; the length of `s` where there
/// is none.
pub open spec fn next_of(s: Seq<char>, c: char, i: int) -> int
    decreases s.len() - i,
{
    if 0 <= i < s.len() && s[i] != c {
        next_of(s, c, i + 1)
    } else {
        i
    }
}

/// The position is in the text or right behind it, and `c` does not stand in front of it.
pub proof fn next_of_bounds(s: Seq<char>, c: char, i: int)
    requires
        0 <= i <= s.len(),
    ensures
        i <= next_of(s, c, i) <= s.len(),
        next_of(s, c, i) < s.len() ==> s[next_of(s, c, i)] == c,
        forall|j: int| i <= j < next_of(s, c, i) ==> s[j] != c,
    decreases s.len() - i,
{
    if i < s.len() && s[i] != c {
        next_of_bounds(s, c, i + 1);
    }
}

/// The parts of `s` between the characters `c`.
pub open spec fn parts(s: Seq<char>, c: char) -> Seq<Seq<char>>
    decreases s.len(),
    via parts_shrink
{
    let k = next_of(s, c, 0);
    if k < s.len() {
        seq![s.take(k)] + parts(s.skip(k + 1), c)
    } else {
        seq![s]
    }
}

#[via_fn]
proof fn parts_shrink(s: Seq<char>, c: char) {
    next_of_bounds(s, c, 0);
}

/// `s` without one carriage return at its end.
pub open spec fn without_cr(s: Seq<char>) -> Seq<char> {
    if s.len() > 0 && s.last() == '\r' {
        s.drop_last()
    } else {
        s
    }
}

/// The lines of `s`: each ends at a line feed, which may follow a carriage return and is left out
/// with it. The last line may lack its line feed.
pub open spec fn line_list(s: Seq<char>) -> Seq<Seq<char>>
    decreases s.len(),
    via line_list_shrink
{
    let k = next_of(s, '\n', 0);
    if s.len() == 0 {
        seq![]
    } else if k < s.len() {
        seq![without_cr(s.take(k))] + line_list(s.skip(k + 1))
    } else {
        seq![s]
    }
}

#[via_fn]
proof fn line_list_shrink(s: Seq<char>) {
    next_of_bounds(s, '\n', 0);
}

/// The first position of `c` in `cs`, or the length of `cs`.
fn seek(cs: &Vec<char>, c: char) -> (r: usize)
    ensures
        r == next_of(cs@, c, 0),
        r <= cs@.len(),
{
    let mut i: usize = 0;
    while i < cs.len() && cs[i] != c
        invariant
            i <= cs.len(),
            next_of(cs@, c, i as int) == next_of(cs@, c, 0),
        ensures
            i == next_of(cs@, c, 0),
            i <= cs.len(),
        decreases cs.len() - i,
    {
        i = i + 1;
    }
    i
}

/// The parts of `s` between the characters `c`.
pub fn split(s: &str, c: char) -> (r: Vec<&str>)
    ensures
        texts(r@) == parts(s@, c),
{
    let mut r: Vec<&str> = Vec::new();
    let mut rest: &str = s;
    loop
        invariant
            texts(r@) + parts(rest@, c) == parts(s@, c),
        decreases rest@.len(),
    {
        let cs = chars_of(rest);
        let k: usize = seek(&cs, c);
        let n: usize = cs.len();
        let ghost before = texts(r@);
        if k == n {
            r.push(rest);
            assert(texts(r@) =~= before.push(rest@));
            assert(before + seq![rest@] =~= before.push(rest@));
            return r;
        }
        let part = rest.substring_char(0, k);
        let tail = rest.substring_char(k + 1, n);
        r.push(part);
        proof {
            assert(texts(r@) =~= before.push(part@));
            assert(part@ =~= rest@.take(k as int));
            assert(tail@ =~= rest@.skip(k + 1));
            assert(before.push(part@) + parts(tail@, c) =~= before + (seq![part@] + parts(
                tail@,
                c,
            )));
        }
        rest = tail;
    }
}

/// The lines of `s`.
pub fn lines(s: &str) -> (r: Vec<&str>)
    ensures
        texts(r@) == line_list(s@),
{
    let mut r: Vec<&str> = Vec::new();
    let mut rest: &str = s;
    assert(texts(r@) + line_list(rest@) =~= line_list(s@));
    loop
        invariant
            texts(r@) + line_list(rest@) == line_list(s@),
        decreases rest@.len(),
    {
        let cs = chars_of(rest);
        let k: usize = seek(&cs, '\n');
        let n: usize = cs.len();
        let ghost before = texts(r@);
        if n == 0 {
            assert(before + line_list(rest@) =~= before);
            return r;
        }
        if k == n {
            r.push(rest);
            assert(texts(r@) =~= before.push(rest@));
            assert(before + seq![rest@] =~= before.push(rest@));
            return r;
        }
        let whole = rest.substring_char(0, k);
        let tail = rest.substring_char(k + 1, n);
        let line = match strip_suffix(whole, '\r') {
            Some(t) => t,
            None => whole,
        };
        r.push(line);
        proof {
            assert(texts(r@) =~= before.push(line@));
            assert(whole@ =~= rest@.take(k as int));
            assert(line@ == without_cr(whole@));
            assert(tail@ =~= rest@.skip(k + 1));
            assert(before.push(line@) + line_list(tail@) =~= before + (seq![line@] + line_list(
                tail@,
            )));
        }
        rest = tail;
    }
}

/// What follows the last character `c` of `s`; all of `s` where it holds none.
pub open spec fn after_last(s: Seq<char>, c: char) -> Seq<char>
    decreases s.len(),
{
    if s.len() == 0 || s.last() == c {
        seq![]
    } else {
        after_last(s.drop_last(), c).push(s.last())
    }
}

/// What follows the last character `c` of `s`.
pub fn tail_after(s: &str, c: char) -> (r: &str)
    ensures
        r@ == after_last(s@, c),
{
    let cs = chars_of(s);
    let n: usize = cs.len();
    let mut i: usize = n;
    assert(cs@.subrange(n as int, n as int) =~= seq![]);
    assert(cs@.take(n as int) =~= cs@);
    assert(after_last(cs@.take(n as int), c) + cs@.subrange(n as int, n as int) =~= after_last(
        s@,
        c,
    ));
    while i > 0 && cs[i - 1] != c
        invariant
            cs@ == s@,
            n == cs@.len(),
            i <= n,
            after_last(cs@.take(i as int), c) + cs@.subrange(i as int, n as int) == after_last(
                s@,
                c,
            ),
        ensures
            i <= n,
            cs@.subrange(i as int, n as int) == after_last(s@, c),
        decreases i,
    {
        proof {
            let h = cs@.take(i as int);
            assert(h.drop_last() =~= cs@.take(i - 1));
            assert(after_last(h, c) + cs@.subrange(i as int, n as int) =~= after_last(
                h.drop_last(),
                c,
            ) + cs@.subrange(i - 1, n as int));
        }
        i = i - 1;
    }
    s.substring_char(i, n)
}

/// `s` without the copies of `p` that it begins with.
pub open spec fn without_leading(s: Seq<char>, p: Seq<char>) -> Seq<char>
    decreases s.len(),
{
    if p.len() > 0 && p.is_prefix_of(s) {
        without_leading(s.skip(p.len() as int), p)
    } else {
        s
    }
}

/// Removes every copy of `p` that `s` begins with.
pub fn trim_leading<'a>(s: &'a str, p: &str) -> (r: &'a str)
    requires
        p@.len() > 0,
    ensures
        r@ == without_leading(s@, p@),
{
    let mut rest: &'a str = s;
    loop
        invariant
            p@.len() > 0,
            without_leading(rest@, p@) == without_leading(s@, p@),
        decreases rest@.len(),
    {
        match strip_prefix(rest, p) {
            Some(t) => {
                rest = t;
            },
            None => {
                return rest;
            },
        }
    }
}

/// `s` with every occurrence of `p`, taken from the left, replaced by `q`.
pub open spec fn replaced(s: Seq<char>, p: Seq<char>, q: Seq<char>) -> Seq<char>
    decreases s.len(),
    via replaced_shrink
{
    match position(s, p) {
        Some(k) if p.len() > 0 => s.take(k) + q + replaced(s.skip(k + p.len()), p, q),
        _ => s,
    }
}

#[via_fn]
proof fn replaced_shrink(s: Seq<char>, p: Seq<char>, q: Seq<char>) {
    position_is_first(s, p);
}

/// Replaces every occurrence of `p`, from the left, by `q`.
pub fn replace(s: &str, p: &str, q: &str) -> (r: String)
    requires
        p@.len() > 0,
    ensures
        r@ == replaced(s@, p@, q@),
{
    let mut r: String = String::new();
    let mut rest: &str = s;
    let m: usize = p.unicode_len();
    assert(r@ + replaced(rest@, p@, q@) =~= replaced(s@, p@, q@));
    loop
        invariant
            m == p@.len(),
            p@.len() > 0,
            r@ + replaced(rest@, p@, q@) == replaced(s@, p@, q@),
        decreases rest@.len(),
    {
        match find(rest, p) {
            Some(k) => {
                let n: usize = rest.unicode_len();
                let head = rest.substring_char(0, k);
                let tail = rest.substring_char(k + m, n);
                proof {
                    position_is_first(rest@, p@);
                    assert(head@ =~= rest@.take(k as int));
                    assert(tail@ =~= rest@.skip(k + m));
                    assert(r@ + (head@ + q@ + replaced(tail@, p@, q@)) =~= (r@ + head@ + q@)
                        + replaced(tail@, p@, q@));
                }
                r.append(head);
                r.append(q);
                rest = tail;
            },
            None => {
                r.append(rest);
                return r;
            },
        }
    }
}

/// The digits that `s` begins with.
pub open spec fn leading_digits(s: Seq<char>) -> Seq<char>
    decreases s.len(),
{
    if s.len() > 0 && digit(s[0]) {
        seq![s[0]] + leading_digits(s.drop_first())
    } else {
        seq![]
    }
}

/// The digits that `s` begins with.
pub fn take_digits(s: &str) -> (r: &str)
    ensures
        r@ == leading_digits(s@),
{
    let cs = chars_of(s);
    let n: usize = cs.len();
    let mut i: usize = 0;
    assert(cs@.take(0) + leading_digits(cs@.skip(0)) =~= leading_digits(s@)) by {
        assert(cs@.skip(0) =~= cs@);
    }
    while i < n && '0' <= cs[i] && cs[i] <= '9'
        invariant
            cs@ == s@,
            n == cs@.len(),
            i <= n,
            cs@.take(i as int) + leading_digits(cs@.skip(i as int)) == leading_digits(s@),
        ensures
            i <= n,
            cs@.take(i as int) == leading_digits(s@),
        decreases n - i,
    {
        proof {
            let t = cs@.skip(i as int);
            assert(t.drop_first() =~= cs@.skip(i + 1));
            assert(cs@.take(i as int) + leading_digits(t) =~= cs@.take(i + 1) + leading_digits(
                t.drop_first(),
            ));
        }
        i = i + 1;
        proof {
            if !(i < n && digit(cs@[i as int])) {
                assert(cs@.take(i as int) + leading_digits(cs@.skip(i as int)) =~= cs@.take(
                    i as int,
                ));
            }
        }
    }
    s.substring_char(0, i)
}

// ---------------------------------------------------------------------------
// Letter case
// ---------------------------------------------------------------------------

/// `s` with the letters `A` to `Z` mapped to `a` to `z`.
pub open spec fn folded(s: Seq<char>) -> Seq<char> {
    s.map_values(|c: char| ascii_lower(c))
}

/// `a` and `b` differ in the case of ASCII letters at most.
pub open spec fn same_ignoring_case(a: Seq<char>, b: Seq<char>) -> bool {
    folded(a) == folded(b)
}

/// `s` in lower case, as `str::to_lowercase` gives it.
pub uninterp spec fn lowercase(s: Seq<char>) -> Seq<char>;

/// `r` ends with every end of `s` that is in ASCII, in lower case.
pub open spec fn keeps_ascii_ends(s: Seq<char>, r: Seq<char>) -> bool {
    forall|k: int|
        0 <= k <= s.len() && all_ascii(#[trigger] s.skip(k)) ==> folded(s.skip(k)).is_suffix_of(r)
}

/// `r` ends with every ASCII text that an end of `s`, put in lower case by itself, ends with.
pub open spec fn keeps_lowered_ends(s: Seq<char>, r: Seq<char>) -> bool {
    forall|k: int, t: Seq<char>|
        0 <= k <= s.len() && all_ascii(t) && #[trigger] t.is_suffix_of(lowercase(s.skip(k)))
            ==> t.is_suffix_of(r)
}

/// Calls `str::to_lowercase`, whose result depends on the text alone. It maps character by
/// character as Unicode does. The one character that looks at its neighbours is the capital sigma:
/// it becomes one of the two small ones by where the word ends, which no letter's case changes. So:
///
/// - of a text in ASCII it maps the letters `A` to `Z` to `a` to `z` and keeps the rest;
/// - it does the same with the ASCII characters that a text ends with;
/// - the case of ASCII letters in the text makes no difference;
/// - what precedes an end of the text makes no difference to the ASCII characters that this end
///   comes to end with.
///
/// What it makes of other characters is not stated.
#[verifier::external_body]
pub(crate) fn lower(s: &str) -> (r: String)
    ensures
        r@ == lowercase(s@),
        all_ascii(s@) ==> r@ == folded(s@),
        keeps_ascii_ends(s@, r@),
        forall|b: Seq<char>| #[trigger] same_ignoring_case(b, s@) ==> r@ == lowercase(b),
        keeps_lowered_ends(s@, r@),
{
    s.to_lowercase()
}

/// An ASCII text that `s` ends with, apart from the case of its letters, ends what `s` becomes in
/// lower case.
pub proof fn folded_end_is_kept(s: Seq<char>, r: Seq<char>, t: Seq<char>)
    requires
        keeps_ascii_ends(s, r),
        all_ascii(t),
        t.is_suffix_of(folded(s)),
    ensures
        t.is_suffix_of(r),
{
    let k = s.len() - t.len();
    let end = s.skip(k);
    assert(folded(end) =~= t) by {
        assert(folded(s).subrange(k, s.len() as int) == t);
        assert forall|i: int| 0 <= i < t.len() implies folded(end)[i] == t[i] by {
            assert(folded(s).subrange(k, s.len() as int)[i] == folded(s)[k + i]);
        }
    }
    assert forall|i: int| 0 <= i < end.len() implies (#[trigger] end[i] as u32) < 128 by {
        assert(folded(end)[i] == ascii_lower(end[i]));
        assert((t[i] as u32) < 128);
    }
}

/// The code of `c` with `A` to `Z` mapped to `a` to `z`.
fn folded_code(c: char) -> (r: u32)
    ensures
        r == ascii_lower(c) as u32,
{
    let n: u32 = c as u32;
    if 'A' <= c && c <= 'Z' {
        n + 32
    } else {
        n
    }
}

/// Whether `a` and `b` differ in the case of ASCII letters at most.
pub fn equal_ignoring_case(a: &str, b: &str) -> (r: bool)
    ensures
        r == same_ignoring_case(a@, b@),
{
    let x = chars_of(a);
    let y = chars_of(b);
    let ghost fa = folded(a@);
    let ghost fb = folded(b@);
    if x.len() != y.len() {
        assert(fa.len() != fb.len());
        return false;
    }
    for i in 0..x.len()
        invariant
            x@ == a@,
            y@ == b@,
            x.len() == y.len(),
            fa == folded(a@),
            fb == folded(b@),
            forall|j: int| 0 <= j < i ==> fa[j] == fb[j],
    {
        if folded_code(x[i]) != folded_code(y[i]) {
            assert(fa[i as int] != fb[i as int]);
            return false;
        }
    }
    assert(fa =~= fb);
    true
}

// ---------------------------------------------------------------------------
// Numbers
// ---------------------------------------------------------------------------

/// The number that the digits `s` stand for.
pub open spec fn digits_value(s: Seq<char>) -> nat
    decreases s.len(),
{
    if s.len() == 0 {
        0
    } else {
        digits_value(s.drop_last()) * 10 + (s.last() as u32 - '0' as u32) as nat
    }
}

/// `s` holds decimal digits only.
pub open spec fn all_digits(s: Seq<char>) -> bool {
    forall|i: int| 0 <= i < s.len() ==> digit(#[trigger] s[i])
}

/// `s` without a plus sign in front.
pub open spec fn unsigned(s: Seq<char>) -> Seq<char> {
    if s.len() > 0 && s[0] == '+' {
        s.skip(1)
    } else {
        s
    }
}

/// The number that `s` stands for: digits, at least one, with an optional plus sign in front, of a
/// value that fits 64 bits.
pub open spec fn number(s: Seq<char>) -> Option<u64> {
    let d = unsigned(s);
    if d.len() > 0 && all_digits(d) && digits_value(d) <= u64::MAX {
        Some(digits_value(d) as u64)
    } else {
        None
    }
}

proof fn digits_value_grows(s: Seq<char>, i: int)
    requires
        0 <= i <= s.len(),
        all_digits(s),
    ensures
        digits_value(s.take(i)) <= digits_value(s),
    decreases s.len() - i,
{
    if i < s.len() {
        digits_value_grows(s, i + 1);
        assert(s.take(i + 1).drop_last() =~= s.take(i));
    } else {
        assert(s.take(i) =~= s);
    }
}

/// Reads a number of 64 bits.
pub fn parse_u64(s: &str) -> (r: Option<u64>)
    ensures
        r == number(s@),
{
    let cs = chars_of(s);
    let n: usize = cs.len();
    let mut i: usize = 0;
    if n > 0 && cs[0] == '+' {
        i = 1;
    }
    let ghost start: int = i as int;
    let ghost d = unsigned(s@);
    assert(d =~= cs@.skip(start));
    if i == n {
        return None;
    }
    let mut v: u64 = 0;
    assert(d.take(0) =~= seq![]);
    while i < n
        invariant
            cs@ == s@,
            n == cs@.len(),
            0 <= start <= i <= n,
            start < n,
            d == unsigned(s@),
            d == cs@.skip(start),
            v == digits_value(d.take(i - start)),
            all_digits(d.take(i - start)),
        decreases n - i,
    {
        let c: char = cs[i];
        assert(c == d[i - start]);
        if !('0' <= c && c <= '9') {
            return None;
        }
        let k: u64 = (c as u32 - '0' as u32) as u64;
        let ghost t = d.take(i - start + 1);
        proof {
            assert(t.drop_last() =~= d.take(i - start));
            assert(t.last() == c);
            assert forall|j: int| 0 <= j < t.len() implies digit(#[trigger] t[j]) by {
                if j < i - start {
                    assert(d.take(i - start)[j] == t[j]);
                }
            }
        }
        if v > (u64::MAX - k) / 10 {
            proof {
                assert(v * 10 + k > u64::MAX);
                if all_digits(d) {
                    digits_value_grows(d, i - start + 1);
                }
            }
            return None;
        }
        v = v * 10 + k;
        i = i + 1;
    }
    assert(d.take(n - start) =~= d);
    Some(v)
}

/// The character of the digit `k`.
pub open spec fn digit_char(k: nat) -> char {
    (('0' as u32) + k) as char
}

/// `n` in decimal.
pub open spec fn decimal(n: nat) -> Seq<char>
    decreases n,
{
    if n < 10 {
        seq![digit_char(n)]
    } else {
        decimal(n / 10).push(digit_char(n % 10))
    }
}

/// The digit `k` as a text.
fn digit_text(k: u64) -> (r: &'static str)
    requires
        k < 10,
    ensures
        r@ == seq![digit_char(k as nat)],
{
    proof {
        reveal_strlit("0");
        reveal_strlit("1");
        reveal_strlit("2");
        reveal_strlit("3");
        reveal_strlit("4");
        reveal_strlit("5");
        reveal_strlit("6");
        reveal_strlit("7");
        reveal_strlit("8");
        reveal_strlit("9");
    }
    let t: &'static str = match k {
        0 => "0",
        1 => "1",
        2 => "2",
        3 => "3",
        4 => "4",
        5 => "5",
        6 => "6",
        7 => "7",
        8 => "8",
        _ => "9",
    };
    assert(t@ =~= seq![digit_char(k as nat)]);
    t
}

/// Writes `n` in decimal.
pub fn decimal_text(n: u64) -> (r: String)
    ensures
        r@ == decimal(n as nat),
    decreases n,
{
    if n < 10 {
        digit_text(n).to_owned()
    } else {
        let mut t = decimal_text(n / 10);
        let last = digit_text(n % 10);
        proof {
            assert(decimal((n / 10) as nat) + last@ =~= decimal((n / 10) as nat).push(
                digit_char((n % 10) as nat),
            ));
        }
        t.append(last);
        t
    }
}

/// A decimal numeral consists of digits, at least one, and stands for its number.
pub proof fn decimal_digits(n: nat)
    ensures
        decimal(n).len() > 0,
        all_digits(decimal(n)),
        digits_value(decimal(n)) == n,
    decreases n,
{
    if n < 10 {
        let d = decimal(n);
        assert(d.drop_last() =~= seq![]);
        assert(digits_value(seq![]) == 0);
    } else {
        decimal_digits(n / 10);
        assert(decimal(n).drop_last() =~= decimal(n / 10));
    }
}

/// What `decimal_text` writes, `parse_u64` reads back.
pub proof fn numbers_read_back(n: u64)
    ensures
        number(decimal(n as nat)) == Some(n),
{
    decimal_digits(n as nat);
    assert(digit(decimal(n as nat)[0]));
}

/// What begins and ends with something else than white space is not changed by trimming, and no
/// line feed behind it is left.
pub proof fn trimming_ends_a_line(s: Seq<char>)
    requires
        s.len() > 0,
        !white(s[0]),
        !white(s.last()),
    ensures
        trimmed(s) == s,
        trimmed(s.push('\n')) == s,
{
    let t = s.push('\n');
    assert(trimmed_start(t, Class::White) == t);
    assert(t.drop_last() =~= s);
    assert(trimmed_end(s, Class::White) == s);
}

} // verus!
