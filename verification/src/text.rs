//! Small verified operations on text: comparison, trimming, prefixes and
//! decimal numerals. Contracts are stated over the `Seq<char>` view of a string.

use vstd::prelude::*;
use vstd::string::*;

verus! {

/// `'\r'` or `'\n'`: the characters that end a line on the wire and on the console.
pub open spec fn is_line_break(c: char) -> bool {
    c == '\n' || c == '\r'
}

/// The characters that `str::trim` removes: the Unicode `White_Space` property.
pub open spec fn is_space(c: char) -> bool {
    let u = c as u32;
    ||| 0x09 <= u <= 0x0D
    ||| u == 0x20
    ||| u == 0x85
    ||| u == 0xA0
    ||| u == 0x1680
    ||| 0x2000 <= u <= 0x200A
    ||| u == 0x2028
    ||| u == 0x2029
    ||| u == 0x202F
    ||| u == 0x205F
    ||| u == 0x3000
}

/// Whether `s` holds no line break, so that it fits on one line.
pub open spec fn single_line(s: Seq<char>) -> bool {
    forall|i: int| 0 <= i < s.len() ==> !is_line_break(#[trigger] s[i])
}

/// `s` with every trailing line break removed.
pub open spec fn without_line_end(s: Seq<char>) -> Seq<char>
    decreases s.len(),
{
    if s.len() > 0 && is_line_break(s.last()) {
        without_line_end(s.drop_last())
    } else {
        s
    }
}

/// `s` with every trailing white-space character removed.
pub open spec fn without_trailing_space(s: Seq<char>) -> Seq<char>
    decreases s.len(),
{
    if s.len() > 0 && is_space(s.last()) {
        without_trailing_space(s.drop_last())
    } else {
        s
    }
}

/// `s` with every leading white-space character removed.
pub open spec fn without_leading_space(s: Seq<char>) -> Seq<char>
    decreases s.len(),
{
    if s.len() > 0 && is_space(s.first()) {
        without_leading_space(s.drop_first())
    } else {
        s
    }
}

/// `s` with white space removed at both ends.
pub open spec fn trimmed(s: Seq<char>) -> Seq<char> {
    without_leading_space(without_trailing_space(s))
}

/// Whether `s` begins with `prefix`.
pub open spec fn has_prefix(s: Seq<char>, prefix: Seq<char>) -> bool {
    prefix.len() <= s.len() && s.take(prefix.len() as int) == prefix
}

/// Whether `part` stands somewhere in `text`, unbroken.
pub open spec fn mentions(text: Seq<char>, part: Seq<char>) -> bool {
    exists|i: int|
        0 <= i && i + part.len() <= text.len() && #[trigger] text.subrange(i, i + part.len())
            == part
}

/// The character of a decimal digit; meant for `d < 10`.
pub open spec fn digit_char(d: nat) -> char {
    if d == 0 {
        '0'
    } else if d == 1 {
        '1'
    } else if d == 2 {
        '2'
    } else if d == 3 {
        '3'
    } else if d == 4 {
        '4'
    } else if d == 5 {
        '5'
    } else if d == 6 {
        '6'
    } else if d == 7 {
        '7'
    } else if d == 8 {
        '8'
    } else {
        '9'
    }
}

/// The decimal numeral of `n`, without sign or leading zeros.
pub open spec fn decimal(n: nat) -> Seq<char>
    decreases n,
{
    if n < 10 {
        seq![digit_char(n)]
    } else {
        decimal(n / 10).push(digit_char(n % 10))
    }
}

/// The characters of `s`, in order.
pub fn chars_of(s: &str) -> (v: Vec<char>)
    ensures
        v@ == s@,
{
    let mut v: Vec<char> = Vec::new();
    for c in it: s.chars()
        invariant
            it.seq() == s@,
            v@ == s@.take(it.index() as int),
    {
        v.push(c);
    }
    assert(v@ == s@);
    v
}

/// Whether two strings hold the same characters.
pub fn str_eq(a: &str, b: &str) -> (r: bool)
    ensures
        r == (a@ == b@),
{
    let x = chars_of(a);
    let y = chars_of(b);
    if x.len() != y.len() {
        return false;
    }
    let mut i: usize = 0;
    while i < x.len()
        invariant
            i <= x.len(),
            x.len() == y.len(),
            x@ == a@,
            y@ == b@,
            x@.take(i as int) == y@.take(i as int),
        decreases x.len() - i,
    {
        if x[i] != y[i] {
            return false;
        }
        assert(x@.take(i + 1) == x@.take(i as int).push(x@[i as int]));
        assert(y@.take(i + 1) == y@.take(i as int).push(y@[i as int]));
        i += 1;
    }
    assert(x@ == x@.take(i as int));
    assert(y@ == y@.take(i as int));
    true
}

/// Exec form of [`is_line_break`].
pub fn line_break(c: char) -> (r: bool)
    ensures
        r == is_line_break(c),
{
    c == '\n' || c == '\r'
}

/// Exec form of [`is_space`].
pub fn space(c: char) -> (r: bool)
    ensures
        r == is_space(c),
{
    let u: u32 = c as u32;
    (0x09 <= u && u <= 0x0D) || u == 0x20 || u == 0x85 || u == 0xA0 || u == 0x1680 || (0x2000 <= u
        && u <= 0x200A) || u == 0x2028 || u == 0x2029 || u == 0x202F || u == 0x205F || u == 0x3000
}

/// Removes the line breaks that end `s`.
pub fn trim_line_end(s: &str) -> (r: &str)
    ensures
        r@ == without_line_end(s@),
{
    let v = chars_of(s);
    let mut j: usize = v.len();
    assert(s@.take(j as int) == s@);
    while j > 0 && line_break(v[j - 1])
        invariant
            j <= v.len(),
            v@ == s@,
            without_line_end(s@) == without_line_end(s@.take(j as int)),
        decreases j,
    {
        assert(s@.take(j as int).drop_last() == s@.take(j - 1));
        j -= 1;
    }
    s.substring_char(0, j)
}

/// Removes white space at both ends of `s`, as `str::trim` does.
pub fn trim(s: &str) -> (r: &str)
    ensures
        r@ == trimmed(s@),
{
    let v = chars_of(s);
    let mut j: usize = v.len();
    assert(s@.take(j as int) == s@);
    while j > 0 && space(v[j - 1])
        invariant
            j <= v.len(),
            v@ == s@,
            without_trailing_space(s@) == without_trailing_space(s@.take(j as int)),
        decreases j,
    {
        assert(s@.take(j as int).drop_last() == s@.take(j - 1));
        j -= 1;
    }
    let mut i: usize = 0;
    assert(s@.subrange(0, j as int) == s@.take(j as int));
    while i < j && space(v[i])
        invariant
            i <= j <= v.len(),
            v@ == s@,
            without_trailing_space(s@) == s@.take(j as int),
            trimmed(s@) == without_leading_space(s@.subrange(i as int, j as int)),
        decreases j - i,
    {
        assert(s@.subrange(i as int, j as int).drop_first() == s@.subrange(i + 1, j as int));
        i += 1;
    }
    s.substring_char(i, j)
}

/// The rest of `s` after `prefix`, if `s` begins with it.
pub fn strip_prefix<'a>(s: &'a str, prefix: &str) -> (r: Option<&'a str>)
    ensures
        has_prefix(s@, prefix@) ==> r is Some && r->0@ == s@.skip(prefix@.len() as int),
        !has_prefix(s@, prefix@) ==> r is None,
{
    let v = chars_of(s);
    let p = chars_of(prefix);
    if p.len() > v.len() {
        return None;
    }
    let mut i: usize = 0;
    while i < p.len()
        invariant
            i <= p.len() <= v.len(),
            v@ == s@,
            p@ == prefix@,
            s@.take(i as int) == prefix@.take(i as int),
        decreases p.len() - i,
    {
        if v[i] != p[i] {
            assert(s@.take(prefix@.len() as int)[i as int] != prefix@[i as int]);
            return None;
        }
        assert(s@.take(i + 1) == s@.take(i as int).push(s@[i as int]));
        assert(prefix@.take(i + 1) == prefix@.take(i as int).push(prefix@[i as int]));
        i += 1;
    }
    assert(prefix@.take(i as int) == prefix@);
    Some(s.substring_char(p.len(), v.len()))
}

/// The text of one decimal digit.
fn digit_text(d: u64) -> (r: &'static str)
    requires
        d < 10,
    ensures
        r@ == seq![digit_char(d as nat)],
{
    proof {
        reveal_strlit("0");
        reveal_strlit("1");
        reveal_strlit("2");
        reveal_strlit("3");
        reveal_strlit("4");
        reveal_strlit("5");
        reveal_strlit("6");
        reveal_strlit("7");
        reveal_strlit("8");
        reveal_strlit("9");
    }
    let r = if d == 0 {
        "0"
    } else if d == 1 {
        "1"
    } else if d == 2 {
        "2"
    } else if d == 3 {
        "3"
    } else if d == 4 {
        "4"
    } else if d == 5 {
        "5"
    } else if d == 6 {
        "6"
    } else if d == 7 {
        "7"
    } else if d == 8 {
        "8"
    } else {
        "9"
    };
    assert(r@ =~= seq![digit_char(d as nat)]);
    r
}

/// The decimal numeral of `n`.
pub fn decimal_text(n: u64) -> (r: String)
    ensures
        r@ == decimal(n as nat),
    decreases n,
{
    if n < 10 {
        String::from_str(digit_text(n))
    } else {
        let mut r = decimal_text(n / 10);
        r.append(digit_text(n % 10));
        assert(r@ =~= decimal(n as nat));
        r
    }
}

/// Two texts joined fit on one line where each of them does.
pub proof fn lemma_single_line_add(a: Seq<char>, b: Seq<char>)
    ensures
        single_line(a + b) == (single_line(a) && single_line(b)),
{
    if single_line(a + b) {
        assert forall|i: int| 0 <= i < a.len() implies !is_line_break(#[trigger] a[i]) by {
            assert(a[i] == (a + b)[i]);
        }
        assert forall|i: int| 0 <= i < b.len() implies !is_line_break(#[trigger] b[i]) by {
            assert(b[i] == (a + b)[a.len() + i]);
        }
    }
}

/// A decimal numeral fits on one line.
pub proof fn lemma_decimal_single_line(n: nat)
    ensures
        single_line(decimal(n)),
    decreases n,
{
    if n >= 10 {
        lemma_decimal_single_line(n / 10);
    }
}

/// A line feed after a text that fits on one line is all that
/// [`without_line_end`] removes.
pub proof fn lemma_framed(text: Seq<char>)
    requires
        single_line(text),
    ensures
        without_line_end(text.push('\n')) == text,
{
    reveal_with_fuel(without_line_end, 2);
    assert(text.push('\n').drop_last() =~= text);
    if text.len() > 0 {
        assert(!is_line_break(text[text.len() - 1]));
    }
}

/// A text mentions what stands between a head and a tail of it.
pub proof fn lemma_mentions_middle(head: Seq<char>, part: Seq<char>, tail: Seq<char>)
    ensures
        mentions(head + part + tail, part),
{
    let text = head + part + tail;
    let i = head.len() as int;
    assert(text.subrange(i, i + part.len()) =~= part);
}

} // verus!
