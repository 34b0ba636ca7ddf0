//! Small text utilities shared by the other modules: comparison, whitespace
//! trimming, splitting and decimal rendering, each with an exact model over
//! sequences of characters.

use vstd::prelude::*;
use vstd::string::*;

verus! {

/// Whether two string slices hold the same characters.
pub fn str_eq(a: &str, b: &str) -> (same: bool)
    ensures
        same == (a@ == b@),
{
    let x: String = a.to_owned();
    let y: String = b.to_owned();
    x == y
}

/// The view of an optional string.
pub open spec fn opt_view(o: Option<String>) -> Option<Seq<char>> {
    match o {
        Some(s) => Some(s@),
        None => None,
    }
}

/// The views of a sequence of optional strings.
pub open spec fn opt_views(v: Seq<Option<String>>) -> Seq<Option<Seq<char>>> {
    Seq::new(v.len(), |i: int| opt_view(v[i]))
}

/// The characters that count as white space when a token is trimmed.
pub open spec fn is_space(c: char) -> bool {
    let n = c as u32;
    (0x09 <= n <= 0x0D) || n == 0x20 || n == 0x85 || n == 0xA0 || n == 0x1680 || (0x2000 <= n
        <= 0x200A) || n == 0x2028 || n == 0x2029 || n == 0x202F || n == 0x205F || n == 0x3000
}

/// Executable form of [`is_space`].
pub fn is_whitespace(c: char) -> (space: bool)
    ensures
        space == is_space(c),
{
    let n: u32 = c as u32;
    (0x09 <= n && n <= 0x0D) || n == 0x20 || n == 0x85 || n == 0xA0 || n == 0x1680 || (0x2000 <= n
        && n <= 0x200A) || n == 0x2028 || n == 0x2029 || n == 0x202F || n == 0x205F || n == 0x3000
}

/// How many white-space characters stand at the front of `t`.
pub open spec fn leading_spaces(t: Seq<char>) -> nat
    decreases t.len(),
{
    if t.len() > 0 && is_space(t[0]) {
        1 + leading_spaces(t.drop_first())
    } else {
        0
    }
}

/// How many white-space characters stand at the end of `t`.
pub open spec fn trailing_spaces(t: Seq<char>) -> nat
    decreases t.len(),
{
    if t.len() > 0 && is_space(t.last()) {
        1 + trailing_spaces(t.drop_last())
    } else {
        0
    }
}

/// `t` without its leading and trailing white space.
pub open spec fn trimmed(t: Seq<char>) -> Seq<char> {
    if leading_spaces(t) == t.len() {
        Seq::empty()
    } else {
        t.subrange(leading_spaces(t) as int, t.len() - trailing_spaces(t))
    }
}

proof fn lemma_leading(t: Seq<char>, i: int)
    requires
        0 <= i <= t.len(),
        forall|j: int| 0 <= j < i ==> is_space(#[trigger] t[j]),
        i == t.len() || !is_space(t[i]),
    ensures
        leading_spaces(t) == i,
    decreases i,
{
    if i > 0 {
        let u = t.drop_first();
        assert forall|j: int| 0 <= j < i - 1 implies is_space(#[trigger] u[j]) by {
            assert(u[j] == t[j + 1]);
        }
        lemma_leading(u, i - 1);
    }
}

proof fn lemma_trailing(t: Seq<char>, k: int)
    requires
        0 <= k <= t.len(),
        forall|j: int| k <= j < t.len() ==> is_space(#[trigger] t[j]),
        k == 0 || !is_space(t[k - 1]),
    ensures
        trailing_spaces(t) == t.len() - k,
    decreases t.len() - k,
{
    if k < t.len() {
        let u = t.drop_last();
        assert forall|j: int| k <= j < u.len() implies is_space(#[trigger] u[j]) by {
            assert(u[j] == t[j]);
        }
        lemma_trailing(u, k);
    }
}

/// Removes leading and trailing white space.
pub fn trim(s: &str) -> (r: &str)
    ensures
        r@ == trimmed(s@),
{
    let n: usize = s.unicode_len();
    let mut a: usize = 0;
    let mut scanning: bool = true;
    while scanning && a < n
        invariant
            a <= n,
            n == s@.len(),
            forall|j: int| 0 <= j < a ==> is_space(#[trigger] s@[j]),
            !scanning ==> a < n && !is_space(s@[a as int]),
        decreases n - a + (if scanning { 1nat } else { 0nat }),
    {
        if is_whitespace(s.get_char(a)) {
            a += 1;
        } else {
            scanning = false;
        }
    }
    proof {
        lemma_leading(s@, a as int);
    }
    if a == n {
        let r = s.substring_char(n, n);
        assert(r@ =~= Seq::<char>::empty());
        return r;
    }
    let mut b: usize = n;
    scanning = true;
    while scanning && b > a + 1
        invariant
            a < b <= n,
            n == s@.len(),
            !is_space(s@[a as int]),
            forall|j: int| b <= j < n ==> is_space(#[trigger] s@[j]),
            !scanning ==> !is_space(s@[b - 1]),
        decreases b + (if scanning { 1nat } else { 0nat }),
    {
        if is_whitespace(s.get_char(b - 1)) {
            b -= 1;
        } else {
            scanning = false;
        }
    }
    proof {
        lemma_trailing(s@, b as int);
    }
    s.substring_char(a, b)
}

/// The views of a sequence of string slices.
pub open spec fn str_views(v: Seq<&str>) -> Seq<Seq<char>> {
    Seq::new(v.len(), |i: int| v[i]@)
}

/// The pieces of `s` that lie between occurrences of `sep`; a text without
/// `sep` is its own single piece.
pub open spec fn split_on(s: Seq<char>, sep: char) -> Seq<Seq<char>>
    decreases s.len(),
{
    if s.len() == 0 {
        seq![Seq::empty()]
    } else {
        let init = split_on(s.drop_last(), sep);
        if s.last() == sep {
            init.push(Seq::empty())
        } else {
            init.update(init.len() - 1, init.last().push(s.last()))
        }
    }
}

/// Splits `s` at every occurrence of `sep`.
pub fn split<'a>(s: &'a str, sep: char) -> (pieces: Vec<&'a str>)
    ensures
        str_views(pieces@) == split_on(s@, sep),
{
    let n: usize = s.unicode_len();
    let mut done: Vec<&'a str> = Vec::new();
    let mut start: usize = 0;
    let mut i: usize = 0;
    assert(s@.take(0) =~= Seq::<char>::empty());
    assert(str_views(done@).push(s@.subrange(0, 0)) =~= seq![Seq::<char>::empty()]);
    while i < n
        invariant
            start <= i <= n,
            n == s@.len(),
            split_on(s@.take(i as int), sep) == str_views(done@).push(
                s@.subrange(start as int, i as int),
            ),
        decreases n - i,
    {
        let c: char = s.get_char(i);
        let ghost before = split_on(s@.take(i as int), sep);
        let ghost shown = str_views(done@);
        proof {
            assert(s@.take(i + 1).drop_last() =~= s@.take(i as int));
            assert(s@.take(i + 1).last() == c);
        }
        if c == sep {
            let piece: &'a str = s.substring_char(start, i);
            done.push(piece);
            start = i + 1;
            proof {
                assert(str_views(done@) =~= before);
                assert(s@.subrange(start as int, i + 1) =~= Seq::<char>::empty());
            }
        } else {
            proof {
                assert(s@.subrange(start as int, i + 1) =~= s@.subrange(
                    start as int,
                    i as int,
                ).push(c));
                assert(before.update(before.len() - 1, before.last().push(c)) =~= shown.push(
                    s@.subrange(start as int, i + 1),
                ));
            }
        }
        i += 1;
    }
    let tail: &'a str = s.substring_char(start, n);
    proof {
        assert(s@.take(n as int) =~= s@);
        assert(str_views(done@.push(tail)) =~= str_views(done@).push(tail@));
    }
    done.push(tail);
    done
}

/// The decimal digit that stands for `d`.
pub open spec fn digit_char(d: nat) -> char {
    if d == 0 {
        '0'
    } else if d == 1 {
        '1'
    } else if d == 2 {
        '2'
    } else if d == 3 {
        '3'
    } else if d == 4 {
        '4'
    } else if d == 5 {
        '5'
    } else if d == 6 {
        '6'
    } else if d == 7 {
        '7'
    } else if d == 8 {
        '8'
    } else {
        '9'
    }
}

/// `n` written in decimal, without sign or leading zeros.
pub open spec fn decimal_digits(n: nat) -> Seq<char>
    decreases n,
{
    if n < 10 {
        seq![digit_char(n)]
    } else {
        decimal_digits(n / 10).push(digit_char(n % 10))
    }
}

fn digit_text(d: u64) -> (r: &'static str)
    requires
        d < 10,
    ensures
        r@ == seq![digit_char(d as nat)],
{
    proof {
        reveal_strlit("0");
        reveal_strlit("1");
        reveal_strlit("2");
        reveal_strlit("3");
        reveal_strlit("4");
        reveal_strlit("5");
        reveal_strlit("6");
        reveal_strlit("7");
        reveal_strlit("8");
        reveal_strlit("9");
    }
    let r: &'static str = if d == 0 {
        "0"
    } else if d == 1 {
        "1"
    } else if d == 2 {
        "2"
    } else if d == 3 {
        "3"
    } else if d == 4 {
        "4"
    } else if d == 5 {
        "5"
    } else if d == 6 {
        "6"
    } else if d == 7 {
        "7"
    } else if d == 8 {
        "8"
    } else {
        "9"
    };
    assert(r@ =~= seq![digit_char(d as nat)]);
    r
}

/// Renders `n` in decimal.
pub fn decimal_string(n: u64) -> (text: String)
    ensures
        text@ == decimal_digits(n as nat),
    decreases n,
{
    if n < 10 {
        String::from_str(digit_text(n))
    } else {
        let mut text: String = decimal_string(n / 10);
        text.append(digit_text(n % 10));
        assert(text@ =~= decimal_digits(n as nat));
        text
    }
}

/// An integer written in decimal, with a minus sign where it is negative.
pub open spec fn signed_digits(n: int) -> Seq<char> {
    if n < 0 {
        "-"@ + decimal_digits((-n) as nat)
    } else {
        decimal_digits(n as nat)
    }
}

/// Renders a signed integer in decimal.
pub fn signed_decimal_string(n: i64) -> (text: String)
    ensures
        text@ == signed_digits(n as int),
{
    if n < 0 {
        let magnitude: u64 = (-(n + 1)) as u64 + 1;
        let mut text: String = String::from_str("-");
        let digits: String = decimal_string(magnitude);
        text.append(digits.as_str());
        text
    } else {
        decimal_string(n as u64)
    }
}

} // verus!
