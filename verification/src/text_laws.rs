//! What the functions on text give, told by how a text is put together.
use vstd::prelude::*;
use vstd::string::*;

use crate::text;
use crate::text::Class;

verus! {

/// All characters of `s` belong to the class `k`.
pub open spec fn only_of(s: Seq<char>, k: Class) -> bool {
    forall|i: int| 0 <= i < s.len() ==> k.has(#[trigger] s[i])
}

/// The character `c` does not stand in `s`.
pub open spec fn lacks(s: Seq<char>, c: char) -> bool {
    forall|i: int| 0 <= i < s.len() ==> #[trigger] s[i] != c
}

/// `c` is one of the digits from `0` to `9`.
pub open spec fn is_digit(c: char) -> bool {
    ||| c == '0'
    ||| c == '1'
    ||| c == '2'
    ||| c == '3'
    ||| c == '4'
    ||| c == '5'
    ||| c == '6'
    ||| c == '7'
    ||| c == '8'
    ||| c == '9'
}

// ---------------------------------------------------------------------------
// Characters
// ---------------------------------------------------------------------------

/// White space is the tabulator, the line breaks, the space and the spaces of other scripts: the 25
/// characters that Unicode calls so.
pub proof fn white_space_is_that_of_unicode(c: char)
    ensures
        text::white(c) <==> ({
            ||| c == '\t'
            ||| c == '\n'
            ||| c == '\u{b}'
            ||| c == '\u{c}'
            ||| c == '\r'
            ||| c == ' '
            ||| c == '\u{85}'
            ||| c == '\u{a0}'
            ||| c == '\u{1680}'
            ||| c == '\u{2000}'
            ||| c == '\u{2001}'
            ||| c == '\u{2002}'
            ||| c == '\u{2003}'
            ||| c == '\u{2004}'
            ||| c == '\u{2005}'
            ||| c == '\u{2006}'
            ||| c == '\u{2007}'
            ||| c == '\u{2008}'
            ||| c == '\u{2009}'
            ||| c == '\u{200a}'
            ||| c == '\u{2028}'
            ||| c == '\u{2029}'
            ||| c == '\u{202f}'
            ||| c == '\u{205f}'
            ||| c == '\u{3000}'
        }),
        Class::White.has(c) == text::white(c),
        forall|d: char| Class::Only(d).has(c) <==> c == d,
{
}

/// A letter from `A` to `Z` lies 32 places in front of its small form. Every other character is its
/// own.
pub proof fn capital_letters_become_small(c: char)
    ensures
        65 <= c as u32 <= 90 ==> text::ascii_lower(c) as u32 == c as u32 + 32,
        (c as u32) < 65 || (c as u32) > 90 ==> text::ascii_lower(c) == c,
        text::digit(c) == is_digit(c),
{
}

/// Two texts differ in the case of ASCII letters at most where they are of one length and each
/// character of the one is that of the other, or its letter in the other case.
pub proof fn texts_match_letter_by_letter(a: Seq<char>, b: Seq<char>)
    ensures
        text::same_ignoring_case(a, b) <==> a.len() == b.len() && forall|i: int|
            0 <= i < a.len() ==> text::ascii_lower(#[trigger] a[i]) == text::ascii_lower(b[i]),
        text::folded(a).len() == a.len(),
        forall|i: int|
            0 <= i < a.len() ==> #[trigger] text::folded(a)[i] == text::ascii_lower(a[i]),
        text::all_ascii(a) <==> forall|i: int| 0 <= i < a.len() ==> (#[trigger] a[i] as u32) < 128,
{
    let x = text::folded(a);
    let y = text::folded(b);
    if text::same_ignoring_case(a, b) {
        assert(x.len() == y.len());
        assert forall|i: int| 0 <= i < a.len() implies text::ascii_lower(#[trigger] a[i])
            == text::ascii_lower(b[i]) by {
            assert(x[i] == y[i]);
        }
    } else if a.len() == b.len() && (forall|i: int|
        0 <= i < a.len() ==> text::ascii_lower(#[trigger] a[i]) == text::ascii_lower(b[i])) {
        assert(x =~= y);
    }
}

// ---------------------------------------------------------------------------
// Trimming
// ---------------------------------------------------------------------------

proof fn start_goes(front: Seq<char>, rest: Seq<char>, k: Class)
    requires
        only_of(front, k),
        rest.len() == 0 || !k.has(rest[0]),
    ensures
        text::trimmed_start(front + rest, k) == rest,
    decreases front.len(),
{
    let s = front + rest;
    if front.len() > 0 {
        assert(s[0] == front[0]);
        assert(s.drop_first() =~= front.drop_first() + rest);
        start_goes(front.drop_first(), rest, k);
    } else {
        assert(s =~= rest);
    }
}

proof fn end_goes(rest: Seq<char>, back: Seq<char>, k: Class)
    requires
        only_of(back, k),
        rest.len() == 0 || !k.has(rest.last()),
    ensures
        text::trimmed_end(rest + back, k) == rest,
    decreases back.len(),
{
    let s = rest + back;
    if back.len() > 0 {
        assert(s.last() == back.last());
        assert(s.drop_last() =~= rest + back.drop_last());
        end_goes(rest, back.drop_last(), k);
    } else {
        assert(s =~= rest);
    }
}

/// Trimming takes away what it is asked to at both ends, all of it, and nothing else.
pub proof fn trimming_takes_the_ends(front: Seq<char>, core: Seq<char>, back: Seq<char>, k: Class)
    requires
        only_of(front, k),
        only_of(back, k),
        core.len() > 0 ==> !k.has(core[0]) && !k.has(core.last()),
    ensures
        text::trimmed_of(front + core + back, k) == core,
        k is White ==> text::trimmed(front + core + back) == core,
{
    if core.len() == 0 {
        assert(only_of(front + back, k));
        assert(front + core + back =~= (front + back) + core);
        start_goes(front + back, core, k);
        assert(text::trimmed_end(core, k) =~= core);
    } else {
        assert(front + core + back =~= front + (core + back));
        assert((core + back)[0] == core[0]);
        start_goes(front, core + back, k);
        end_goes(core, back, k);
    }
}

// ---------------------------------------------------------------------------
// Searching
// ---------------------------------------------------------------------------

/// A text is found where it stands first.
pub proof fn first_occurrence_is_found(a: Seq<char>, p: Seq<char>, b: Seq<char>)
    requires
        forall|x: Seq<char>, y: Seq<char>| a + p + b == #[trigger] (x + p + y) ==> x.len() >= a.len(),
    ensures
        text::position(a + p + b, p) == Some(a.len() as int),
        text::has_text(a + p + b, p),
{
    let s = a + p + b;
    assert(s.subrange(a.len() as int, (a.len() + p.len()) as int) =~= p);
    assert(text::occurs_at(s, p, a.len() as int));
    text::position_is_first(s, p);
    let i = text::position(s, p)->0;
    let x = s.take(i);
    let y = s.skip(i + p.len());
    assert(s =~= x + p + y) by {
        assert(s.subrange(i, i + p.len()) == p);
        assert forall|j: int| 0 <= j < s.len() implies s[j] == (x + p + y)[j] by {
            if i <= j < i + p.len() {
                assert(s.subrange(i, i + p.len())[j - i] == s[j]);
            }
        }
    }
    assert(a + p + b == x + p + y);
}

/// A text stands in another exactly where the other is made of it and of what is around it.
pub proof fn texts_stand_between_others(s: Seq<char>, p: Seq<char>)
    ensures
        text::has_text(s, p) <==> exists|x: Seq<char>, y: Seq<char>| s == #[trigger] (x + p + y),
        text::position(s, p) is None <==> !(exists|x: Seq<char>, y: Seq<char>|
            s == #[trigger] (x + p + y)),
{
    text::position_is_first(s, p);
    if text::has_text(s, p) {
        let i = choose|i: int| #[trigger] text::occurs_at(s, p, i);
        let x = s.take(i);
        let y = s.skip(i + p.len());
        assert(s =~= x + p + y) by {
            assert forall|j: int| 0 <= j < s.len() implies s[j] == (x + p + y)[j] by {
                if i <= j < i + p.len() {
                    assert(s.subrange(i, i + p.len())[j - i] == s[j]);
                }
            }
        }
        assert(s == x + p + y);
    }
    if exists|x: Seq<char>, y: Seq<char>| s == #[trigger] (x + p + y) {
        let (x, y) = choose|x: Seq<char>, y: Seq<char>| s == #[trigger] (x + p + y);
        assert(s.subrange(x.len() as int, (x.len() + p.len()) as int) =~= p);
        assert(text::occurs_at(s, p, x.len() as int));
    }
}

/// What follows a prefix is what is left of a text that begins with it, and what precedes a last
/// character is what is left of a text that ends with that.
pub proof fn ends_are_stripped(s: Seq<char>, p: Seq<char>, c: char)
    ensures
        text::after_prefix(p + s, p) == Some(s),
        text::after_prefix(s, p) is Some <==> s.len() >= p.len() && s.take(p.len() as int) == p,
        text::before_last(s.push(c), c) == Some(s),
        text::before_last(s, c) is Some <==> s.len() > 0 && s[s.len() - 1] == c,
{
    assert((p + s).skip(p.len() as int) =~= s);
    assert((p + s).take(p.len() as int) =~= p);
    assert(s.push(c).drop_last() =~= s);
    if s.len() >= p.len() {
        assert(s.take(p.len() as int) =~= s.subrange(0, p.len() as int));
    }
}

// ---------------------------------------------------------------------------
// Splitting
// ---------------------------------------------------------------------------

proof fn next_is_behind(a: Seq<char>, rest: Seq<char>, c: char, i: int)
    requires
        lacks(a, c),
        0 <= i <= a.len(),
        rest.len() > 0 ==> rest[0] == c,
    ensures
        text::next_of(a + rest, c, i) == a.len(),
    decreases a.len() - i,
{
    let s = a + rest;
    if i < a.len() {
        assert(s[i] == a[i]);
        next_is_behind(a, rest, c, i + 1);
    }
}

/// A text is cut at each place of a character: at the first, and what follows as a text of its own.
/// What lacks the character is one part.
pub proof fn parts_lie_between(a: Seq<char>, rest: Seq<char>, c: char)
    requires
        lacks(a, c),
    ensures
        text::parts(a, c) == seq![a],
        text::parts(a.push(c) + rest, c) == seq![a] + text::parts(rest, c),
{
    next_is_behind(a, seq![], c, 0);
    assert(a + Seq::<char>::empty() =~= a);
    let s = a.push(c) + rest;
    assert(s =~= a + seq![c] + rest);
    assert(s =~= a + (seq![c] + rest));
    next_is_behind(a, seq![c] + rest, c, 0);
    assert(s.take(a.len() as int) =~= a);
    assert(s.skip((a.len() + 1) as int) =~= rest);
}

/// A line ends at a line feed, and a carriage return in front of that goes with it. What follows is
/// cut into lines as a text of its own. The last line may lack its line feed.
pub proof fn lines_end_at_line_feeds(a: Seq<char>, rest: Seq<char>)
    requires
        lacks(a, '\n'),
    ensures
        text::line_list(Seq::empty()) == Seq::<Seq<char>>::empty(),
        a.len() > 0 ==> text::line_list(a) == seq![a],
        a.len() > 0 && a.last() == '\r' ==> text::line_list(a.push('\n') + rest) == seq![
            a.take(a.len() - 1),
        ] + text::line_list(rest),
        a.len() == 0 || a.last() != '\r' ==> text::line_list(a.push('\n') + rest) == seq![a]
            + text::line_list(rest),
{
    next_is_behind(a, seq![], '\n', 0);
    assert(a + Seq::<char>::empty() =~= a);
    let s = a.push('\n') + rest;
    assert(s =~= a + (seq!['\n'] + rest));
    next_is_behind(a, seq!['\n'] + rest, '\n', 0);
    assert(s.take(a.len() as int) =~= a);
    assert(s.skip((a.len() + 1) as int) =~= rest);
    if a.len() > 0 {
        assert(a.drop_last() =~= a.take(a.len() - 1));
    }
}

/// What follows the last place of a character lacks it, and is all of a text that lacks it.
pub proof fn tail_follows_the_last(front: Seq<char>, name: Seq<char>, c: char)
    requires
        lacks(name, c),
    ensures
        text::after_last(name, c) == name,
        text::after_last(front.push(c) + name, c) == name,
    decreases name.len(),
{
    let s = front.push(c) + name;
    if name.len() == 0 {
        assert(s =~= front.push(c));
        assert(name =~= seq![]);
    } else {
        assert(s.last() == name.last());
        assert(s.drop_last() =~= front.push(c) + name.drop_last());
        tail_follows_the_last(front, name.drop_last(), c);
        assert(name.drop_last().push(name.last()) =~= name);
    }
}

/// Copies of a text at the front are taken away one by one, as long as there are any.
pub proof fn leading_copies_go(s: Seq<char>, p: Seq<char>)
    requires
        p.len() > 0,
    ensures
        text::without_leading(p + s, p) == text::without_leading(s, p),
        s.len() < p.len() || s.take(p.len() as int) != p ==> text::without_leading(s, p) == s,
{
    assert((p + s).skip(p.len() as int) =~= s);
    assert((p + s).take(p.len() as int) =~= p);
    assert(p.is_prefix_of(p + s)) by {
        assert((p + s).subrange(0, p.len() as int) =~= p);
    }
    if p.is_prefix_of(s) {
        assert(s.take(p.len() as int) =~= s.subrange(0, p.len() as int));
    }
}

/// The first occurrence is replaced, and what follows it as a text of its own. A text without an
/// occurrence stays as it is.
pub proof fn occurrences_are_replaced(a: Seq<char>, p: Seq<char>, b: Seq<char>, q: Seq<char>)
    requires
        p.len() > 0,
        forall|x: Seq<char>, y: Seq<char>| a + p + b == #[trigger] (x + p + y) ==> x.len() >= a.len(),
    ensures
        text::replaced(a + p + b, p, q) == a + q + text::replaced(b, p, q),
        forall|s: Seq<char>| !text::has_text(s, p) ==> #[trigger] text::replaced(s, p, q) == s,
{
    let s = a + p + b;
    first_occurrence_is_found(a, p, b);
    assert(s.take(a.len() as int) =~= a);
    assert(s.skip((a.len() + p.len()) as int) =~= b);
    assert forall|t: Seq<char>| !text::has_text(t, p) implies #[trigger] text::replaced(t, p, q)
        == t by {
        text::position_is_first(t, p);
    }
}

// ---------------------------------------------------------------------------
// Numbers
// ---------------------------------------------------------------------------

/// The digits at the front are all that stand in front of the first other character.
pub proof fn digits_end_at_another_character(d: Seq<char>, rest: Seq<char>)
    requires
        forall|i: int| 0 <= i < d.len() ==> is_digit(#[trigger] d[i]),
        rest.len() > 0 ==> !is_digit(rest[0]),
    ensures
        text::leading_digits(d + rest) == d,
    decreases d.len(),
{
    let s = d + rest;
    if d.len() > 0 {
        assert(s[0] == d[0]);
        assert(s.drop_first() =~= d.drop_first() + rest);
        assert forall|i: int| 0 <= i < d.drop_first().len() implies is_digit(
            #[trigger] d.drop_first()[i],
        ) by {
            assert(d.drop_first()[i] == d[i + 1]);
        }
        digits_end_at_another_character(d.drop_first(), rest);
        assert(seq![d[0]] + d.drop_first() =~= d);
    } else {
        assert(s =~= rest);
        assert(d =~= seq![]);
    }
}

/// So many zeros.
pub open spec fn zeros(k: nat) -> Seq<char> {
    Seq::new(k, |i: int| '0')
}

proof fn value_of_zeros(k: nat, d: Seq<char>)
    ensures
        text::digits_value(zeros(k) + d) == text::digits_value(d),
    decreases d.len(), k,
{
    let s = zeros(k) + d;
    if d.len() > 0 {
        assert(s.last() == d.last());
        assert(s.drop_last() =~= zeros(k) + d.drop_last());
        value_of_zeros(k, d.drop_last());
    } else if k > 0 {
        assert(s.last() == '0');
        assert(s.drop_last() =~= zeros((k - 1) as nat) + d);
        value_of_zeros((k - 1) as nat, d);
    } else {
        assert(s =~= d);
    }
}

/// A number is read whatever number of zeros stands in front of it, with or without a plus sign,
/// where it fits 64 bits; no other number is.
pub proof fn numbers_are_read(n: nat, k: nat)
    ensures
        n <= 0xffff_ffff_ffff_ffff ==> text::number(zeros(k) + text::decimal(n)) == Some(n as u64),
        n <= 0xffff_ffff_ffff_ffff ==> text::number(seq!['+'] + zeros(k) + text::decimal(n)) == Some(
            n as u64,
        ),
        n > 0xffff_ffff_ffff_ffff ==> text::number(zeros(k) + text::decimal(n)) is None,
{
    let d = text::decimal(n);
    let s = zeros(k) + d;
    text::decimal_digits(n);
    value_of_zeros(k, d);
    assert forall|i: int| 0 <= i < s.len() implies text::digit(#[trigger] s[i]) by {
        if i >= k {
            assert(s[i] == d[i - k]);
        }
    }
    assert(text::digit(s[0]));
    let p = seq!['+'] + zeros(k) + d;
    assert(p.skip(1) =~= s);
}

/// A text that holds anything but digits, behind a plus sign that may stand in front, is no number;
/// nor is one without a digit.
pub proof fn other_texts_are_no_numbers(s: Seq<char>)
    requires
        s.len() == 0 || s == seq!['+'] || (exists|i: int|
            0 <= i < s.len() && !is_digit(#[trigger] s[i]) && !(i == 0 && s[0] == '+')),
    ensures
        text::number(s) is None,
{
    if s.len() > 0 && s != seq!['+'] {
        let i = choose|i: int|
            0 <= i < s.len() && !is_digit(#[trigger] s[i]) && !(i == 0 && s[0] == '+');
        let d = text::unsigned(s);
        if s[0] == '+' {
            assert(d[i - 1] == s[i]);
        } else {
            assert(d[i] == s[i]);
        }
    } else if s.len() > 0 {
        assert(s[0] == '+');
        assert(s.skip(1).len() == 0);
    }
}

/// Numbers are written with their digits in order, and without zeros in front.
pub proof fn numbers_are_written_digit_by_digit(n: nat, k: nat)
    requires
        k < 10,
    ensures
        text::decimal(k) == seq!["0123456789"@[k as int]],
        n > 0 ==> text::decimal(10 * n + k) == text::decimal(n).push("0123456789"@[k as int]),
{
    reveal_strlit("0123456789");
    assert(k == 0 || k == 1 || k == 2 || k == 3 || k == 4 || k == 5 || k == 6 || k == 7 || k == 8
        || k == 9);
    if n > 0 {
        assert((10 * n + k) / 10 == n);
        assert((10 * n + k) % 10 == k);
    }
}

} // verus!
