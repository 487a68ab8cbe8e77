//! Character-sequence specifications shared by the library, with the string
//! operations of std and of `itoa` that the library relies on.

use vstd::prelude::*;

verus! {

/// `p` is a prefix of `s`.
pub open spec fn starts_with(s: Seq<char>, p: Seq<char>) -> bool {
    p.len() <= s.len() && s.take(p.len() as int) == p
}

/// The index of the first occurrence of `p` in `s`.
pub open spec fn find(s: Seq<char>, p: Seq<char>) -> Option<int>
    decreases s.len(),
{
    if starts_with(s, p) {
        Some(0)
    } else if s.len() == 0 {
        None
    } else {
        match find(s.drop_first(), p) {
            Some(i) => Some(i + 1),
            None => None,
        }
    }
}

/// `s` cut at the first occurrence of `p`: what stands before it and what follows it.
pub open spec fn split_once_spec(s: Seq<char>, p: Seq<char>) -> Option<(Seq<char>, Seq<char>)> {
    match find(s, p) {
        Some(i) => Some((s.take(i), s.skip(i + p.len()))),
        None => None,
    }
}

/// `s` cut at every occurrence of the character `c` (always at least one piece).
pub open spec fn split_on(s: Seq<char>, c: char) -> Seq<Seq<char>>
    decreases s.len(),
{
    match find(s, seq![c]) {
        Some(i) => {
            proof {
                lemma_find_bounds(s, seq![c]);
            }
            seq![s.take(i)] + split_on(s.skip(i + 1), c)
        },
        None => seq![s],
    }
}

/// The pieces joined with `sep` between every two of them.
pub open spec fn join(parts: Seq<Seq<char>>, sep: Seq<char>) -> Seq<char>
    decreases parts.len(),
{
    if parts.len() == 0 {
        Seq::empty()
    } else if parts.len() == 1 {
        parts[0]
    } else {
        join(parts.drop_last(), sep) + sep + parts.last()
    }
}

/// The views of a sequence of strings.
pub open spec fn views(s: Seq<String>) -> Seq<Seq<char>> {
    s.map_values(|x: String| x@)
}

/// The ASCII digit for `d < 10`.
pub open spec fn digit_char(d: nat) -> char {
    (d + 48) as char
}

pub open spec fn is_digit(c: char) -> bool {
    48 <= (c as u32) <= 57
}

pub open spec fn digit_value(c: char) -> nat {
    ((c as u32) - 48) as nat
}

pub open spec fn all_digits(s: Seq<char>) -> bool {
    forall|i: int| 0 <= i < s.len() ==> is_digit(#[trigger] s[i])
}

/// The value of a string of decimal digits.
pub open spec fn digits_value(s: Seq<char>) -> nat
    decreases s.len(),
{
    if s.len() == 0 {
        0
    } else {
        digits_value(s.drop_last()) * 10 + digit_value(s.last())
    }
}

/// The decimal representation of `n`, without sign or leading zeros.
pub open spec fn decimal(n: nat) -> Seq<char>
    decreases n,
{
    if n < 10 {
        seq![digit_char(n)]
    } else {
        decimal(n / 10).push(digit_char(n % 10))
    }
}

/// What parsing `s` as a `u16` gives: an optional `+` followed by at least
/// one decimal digit and nothing else, of a value that fits.
pub open spec fn parse_u16_spec(s: Seq<char>) -> Option<u16> {
    let d = if s.len() > 0 && s[0] == '+' {
        s.drop_first()
    } else {
        s
    };
    if d.len() > 0 && all_digits(d) && digits_value(d) <= u16::MAX {
        Some(digits_value(d) as u16)
    } else {
        None
    }
}

pub proof fn lemma_find_bounds(s: Seq<char>, p: Seq<char>)
    ensures
        find(s, p) matches Some(i) ==> 0 <= i && i + p.len() <= s.len() && s.subrange(
            i,
            i + p.len(),
        ) == p,
    decreases s.len(),
{
    if !starts_with(s, p) && s.len() > 0 {
        lemma_find_bounds(s.drop_first(), p);
        if let Some(i) = find(s.drop_first(), p) {
            assert(s.subrange(i + 1, i + 1 + p.len()) =~= s.drop_first().subrange(i, i + p.len()));
        }
    }
}

/// A string in which the character `c` does not occur has no occurrence of `[c]`.
pub proof fn lemma_find_absent(s: Seq<char>, c: char)
    requires
        forall|i: int| 0 <= i < s.len() ==> s[i] != c,
    ensures
        find(s, seq![c]) is None,
    decreases s.len(),
{
    if s.len() > 0 {
        assert(s.take(1)[0] == s[0]);
        lemma_find_absent(s.drop_first(), c);
    }
}

/// In `a + [c] + b`, where `c` does not occur in `a`, the first `[c]` is right after `a`.
pub proof fn lemma_find_after(a: Seq<char>, c: char, b: Seq<char>)
    requires
        forall|i: int| 0 <= i < a.len() ==> a[i] != c,
    ensures
        find(a + seq![c] + b, seq![c]) == Some(a.len() as int),
    decreases a.len(),
{
    let s = a + seq![c] + b;
    if a.len() == 0 {
        assert(s.take(1) =~= seq![c]);
    } else {
        assert(s.take(1)[0] == a[0]);
        assert(s.drop_first() =~= a.drop_first() + seq![c] + b);
        lemma_find_after(a.drop_first(), c, b);
    }
}

pub proof fn lemma_decimal_digits(n: nat)
    ensures
        decimal(n).len() > 0,
        all_digits(decimal(n)),
        digits_value(decimal(n)) == n,
    decreases n,
{
    if n < 10 {
        let s = decimal(n);
        assert(s.drop_last() =~= Seq::<char>::empty());
        assert(digits_value(Seq::<char>::empty()) == 0);
        assert(digit_value(digit_char(n)) == n);
    } else {
        lemma_decimal_digits(n / 10);
        let s = decimal(n);
        assert(s.drop_last() =~= decimal(n / 10));
        assert(s.last() == digit_char(n % 10));
        assert(digit_value(digit_char(n % 10)) == n % 10);
        assert(digits_value(s) == digits_value(decimal(n / 10)) * 10 + digit_value(s.last()));
        assert(n == (n / 10) * 10 + n % 10) by (nonlinear_arith);
    }
}

/// Parsing the decimal representation of a `u16` gives it back.
pub proof fn lemma_parse_decimal(n: u16)
    ensures
        parse_u16_spec(decimal(n as nat)) == Some(n),
{
    lemma_decimal_digits(n as nat);
    let s = decimal(n as nat);
    assert(is_digit(s[0]));
}

/// `s` cut at the first occurrence of `p` (std's `str::split_once`).
///
/// Calls `str::split_once` with a string pattern; the contract claims what its
/// documentation says: the split is at the first occurrence of `p`, and there
/// is none when `p` does not occur.
#[verifier::external_body]
pub(crate) fn split_once<'a>(s: &'a str, p: &str) -> (res: Option<(&'a str, &'a str)>)
    ensures
        match res {
            Some((a, b)) => split_once_spec(s@, p@) == Some((a@, b@)),
            None => split_once_spec(s@, p@) is None,
        },
{
    s.split_once(p)
}

/// `s` without the prefix `p`, if it starts with it (std's `str::strip_prefix`).
///
/// Calls `str::strip_prefix` with a string pattern; the contract claims what
/// its documentation says: `Some` of the rest exactly when `s` starts with `p`.
#[verifier::external_body]
pub(crate) fn strip_prefix<'a>(s: &'a str, p: &str) -> (res: Option<&'a str>)
    ensures
        match res {
            Some(r) => starts_with(s@, p@) && r@ == s@.skip(p@.len() as int),
            None => !starts_with(s@, p@),
        },
{
    s.strip_prefix(p)
}

#[verifier::external_type_specification]
#[verifier::external_body]
pub struct ExParseIntError(std::num::ParseIntError);

/// The error that parsing `s` as a `u16` gives where it fails.
pub uninterp spec fn u16_parse_error(s: Seq<char>) -> std::num::ParseIntError;

/// `s` parsed as a `u16` (std's `<u16 as FromStr>::from_str`).
///
/// The contract claims what the documentation of `u16::from_str_radix` says
/// for radix 10: an optional `+` and then only decimal digits, of a value that
/// fits in a `u16`; anything else is an error, and the error is a function of
/// `s` alone (its kind is decided by the text). Which kind it is, is not stated.
#[verifier::external_body]
pub(crate) fn parse_u16(s: &str) -> (res: Result<u16, std::num::ParseIntError>)
    ensures
        match res {
            Ok(n) => parse_u16_spec(s@) == Some(n),
            Err(e) => parse_u16_spec(s@) is None && e == u16_parse_error(s@),
        },
{
    s.parse::<u16>()
}

/// The decimal representation of `n` (`itoa::Buffer::format`).
///
/// Calls `itoa::Buffer::format` on a `u16`; the contract claims that it writes
/// the decimal digits of the number, without sign or leading zeros.
#[verifier::external_body]
pub(crate) fn decimal_string(n: u16) -> (res: String)
    ensures
        res@ == decimal(n as nat),
{
    itoa::Buffer::new().format(n).to_string()
}

/// The pieces joined with `sep` between every two of them.
pub fn join_strings(parts: Vec<String>, sep: &str) -> (res: String)
    ensures
        res@ == join(views(parts@), sep@),
{
    let mut res = String::new();
    let n = parts.len();
    let mut i: usize = 0;
    while i < n
        invariant
            n == parts.len(),
            i <= n,
            res@ == join(views(parts@).take(i as int), sep@),
        decreases n - i,
    {
        let ghost before = res@;
        if i > 0 {
            res.append(sep);
        }
        res.append(parts[i].as_str());
        proof {
            let v = views(parts@);
            assert(v.take(i + 1).drop_last() =~= v.take(i as int));
            assert(v.take(i + 1).last() == parts@[i as int]@);
            if i == 0 {
                assert(before =~= Seq::<char>::empty());
                assert(res@ =~= parts@[0]@);
            }
        }
        i = i + 1;
    }
    proof {
        assert(views(parts@).take(n as int) =~= views(parts@));
    }
    res
}

} // verus!
