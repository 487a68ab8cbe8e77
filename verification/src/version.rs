//! The Cursor client version: `major.minor.patch`, its text form, and its
//! in-memory byte image.

use vstd::prelude::*;
use crate::text::{
    u16_parse_error,
    decimal, decimal_string, is_digit, lemma_decimal_digits, lemma_find_absent, lemma_find_after,
    lemma_parse_decimal, parse_u16, parse_u16_spec, split_on, split_once,
};

verus! {

/// A Cursor client version.
#[derive(Debug, Clone, Copy, PartialEq, Eq, Structural)]
pub struct Version {
    pub major: u16,
    pub minor: u16,
    pub patch: u16,
}

/// The two bytes of `x`, least significant first.
pub open spec fn le_bytes(x: u16) -> Seq<u8> {
    seq![(x % 256) as u8, (x / 256) as u8]
}

/// The two bytes of `x`, most significant first.
pub open spec fn be_bytes(x: u16) -> Seq<u8> {
    seq![(x / 256) as u8, (x % 256) as u8]
}

/// The byte image of a version on a little-endian machine.
pub open spec fn le_image(v: Version) -> Seq<u8> {
    le_bytes(v.major) + le_bytes(v.minor) + le_bytes(v.patch)
}

/// The byte image of a version on a big-endian machine.
pub open spec fn be_image(v: Version) -> Seq<u8> {
    be_bytes(v.major) + be_bytes(v.minor) + be_bytes(v.patch)
}

/// The text form `major.minor.patch`.
pub open spec fn version_text(v: Version) -> Seq<char> {
    decimal(v.major as nat) + seq!['.'] + decimal(v.minor as nat) + seq!['.'] + decimal(
        v.patch as nat,
    )
}

/// The number of dot-separated pieces that are read: at most three.
pub open spec fn read_count(segs: Seq<Seq<char>>) -> int {
    if segs.len() < 3 {
        segs.len() as int
    } else {
        3
    }
}

/// The `i`-th component: the `i`-th piece parsed, or 0 where there is no such piece.
pub open spec fn component(segs: Seq<Seq<char>>, i: int) -> u16 {
    if i < read_count(segs) {
        parse_u16_spec(segs[i]).unwrap()
    } else {
        0
    }
}

/// What parsing a version text gives: the first (up to) three dot-separated
/// pieces are parsed as `u16`; missing components are 0 and pieces after the
/// third are not looked at. `None` when one of the read pieces does not parse.
pub open spec fn parse_version(s: Seq<char>) -> Option<Version> {
    let segs = split_on(s, '.');
    if forall|i: int| 0 <= i < read_count(segs) ==> (#[trigger] parse_u16_spec(segs[i])) is Some {
        Some(Version { major: component(segs, 0), minor: component(segs, 1), patch: component(segs, 2) })
    } else {
        None
    }
}

/// The index of the first piece, from `i` on and among those read, that does
/// not parse.
pub open spec fn first_bad_piece_from(segs: Seq<Seq<char>>, i: int) -> int
    decreases read_count(segs) - i,
{
    if i < 0 || i >= read_count(segs) {
        read_count(segs)
    } else if parse_u16_spec(segs[i]) is None {
        i
    } else {
        first_bad_piece_from(segs, i + 1)
    }
}

/// The error of parsing a version text that does not parse: that of the
/// first read piece that does not parse.
pub open spec fn version_parse_error(s: Seq<char>) -> std::num::ParseIntError {
    let segs = split_on(s, '.');
    u16_parse_error(segs[first_bad_piece_from(segs, 0)])
}

/// The bytes of `x` in the machine's own order (std's `u16::to_ne_bytes`).
///
/// The contract claims what the documentation says of every machine: the
/// bytes come either least significant first or most significant first.
/// Which of the two is the machine's order is not stated.
#[verifier::external_body]
fn native_bytes(x: u16) -> (res: [u8; 2])
    ensures
        res@ == le_bytes(x) || res@ == be_bytes(x),
{
    x.to_ne_bytes()
}

/// The image of a version in the byte order that `probe`, the machine's bytes
/// of the number 1, shows: least significant first when its first byte is 1.
pub fn image_in_order(v: Version, probe: [u8; 2]) -> (res: [u8; 6])
    ensures
        probe@[0] == 1 ==> res@ == le_image(v),
        probe@[0] != 1 ==> res@ == be_image(v),
{
    let ma_lo = (v.major % 256) as u8;
    let ma_hi = (v.major / 256) as u8;
    let mi_lo = (v.minor % 256) as u8;
    let mi_hi = (v.minor / 256) as u8;
    let pa_lo = (v.patch % 256) as u8;
    let pa_hi = (v.patch / 256) as u8;
    if probe[0] == 1 {
        let res = [ma_lo, ma_hi, mi_lo, mi_hi, pa_lo, pa_hi];
        assert(res@ =~= le_image(v));
        res
    } else {
        let res = [ma_hi, ma_lo, mi_hi, mi_lo, pa_hi, pa_lo];
        assert(res@ =~= be_image(v));
        res
    }
}

impl Version {
    /// The in-memory image of the three components, each in the machine's byte
    /// order (the order in which the machine lays out the number 1).
    pub fn to_bytes(self) -> (res: [u8; 6])
        ensures
            res@ == le_image(self) || res@ == be_image(self),
    {
        let probe = native_bytes(1);
        image_in_order(self, probe)
    }

    /// The text form `major.minor.patch`.
    pub fn to_string(&self) -> (res: String)
        ensures
            res@ == version_text(*self),
    {
        let mut res = decimal_string(self.major);
        let minor = decimal_string(self.minor);
        let patch = decimal_string(self.patch);
        proof {
            reveal_strlit(".");
        }
        res.append(".");
        res.append(minor.as_str());
        res.append(".");
        res.append(patch.as_str());
        res
    }

    /// Parses `major.minor.patch`; see `parse_version` for what is accepted.
    pub fn from_str(s: &str) -> (res: Result<Version, std::num::ParseIntError>)
        ensures
            match res {
                Ok(v) => parse_version(s@) == Some(v),
                Err(e) => parse_version(s@) is None && e == version_parse_error(s@),
            },
    {
        proof {
            reveal_strlit(".");
            assert("."@ =~= seq!['.']);
        }
        let ghost segs = split_on(s@, '.');
        let mut vals: Vec<u16> = Vec::new();
        let mut rest: &str = s;
        let mut more = true;
        while more && vals.len() < 3
            invariant
                vals.len() <= 3,
                vals.len() <= segs.len(),
                segs == split_on(s@, '.'),
                "."@ == seq!['.'],
                more ==> segs =~= segs.take(vals.len() as int) + split_on(rest@, '.'),
                !more ==> segs.len() == vals.len(),
                forall|j: int| 0 <= j < vals.len() ==> parse_u16_spec(#[trigger] segs[j]) == Some(vals@[j]),
                first_bad_piece_from(segs, 0) == first_bad_piece_from(segs, vals.len() as int),
            decreases 3 - vals.len(),
        {
            let k = vals.len();
            match split_once(rest, ".") {
                Some((a, b)) => {
                    proof {
                        assert(split_on(rest@, '.') == seq![a@] + split_on(b@, '.'));
                        assert(segs[k as int] == a@);
                    }
                    let n = parse_u16(a)?;
                    vals.push(n);
                    proof {
                        assert(segs =~= segs.take(vals.len() as int) + split_on(b@, '.'));
                    }
                    rest = b;
                },
                None => {
                    proof {
                        assert(split_on(rest@, '.') == seq![rest@]);
                        assert(segs[k as int] == rest@);
                    }
                    let n = parse_u16(rest)?;
                    vals.push(n);
                    more = false;
                },
            }
        }
        let major = if vals.len() > 0 { vals[0] } else { 0 };
        let minor = if vals.len() > 1 { vals[1] } else { 0 };
        let patch = if vals.len() > 2 { vals[2] } else { 0 };
        proof {
            assert(read_count(segs) == vals.len());
        }
        Ok(Version { major, minor, patch })
    }
}

impl std::str::FromStr for Version {
    type Err = std::num::ParseIntError;

    /// Parses `major.minor.patch`; see `parse_version` for what is accepted.
    fn from_str(s: &str) -> (res: Result<Version, std::num::ParseIntError>)
        ensures
            match res {
                Ok(v) => parse_version(s@) == Some(v),
                Err(e) => parse_version(s@) is None && e == version_parse_error(s@),
            },
    {
        Version::from_str(s)
    }
}

impl Default for Version {
    /// Version 2.5.0.
    fn default() -> (res: Self)
        ensures
            res == (Version { major: 2, minor: 5, patch: 0 }),
    {
        Version { major: 2, minor: 5, patch: 0 }
    }
}

/// A version written out and read back is the same version.
pub proof fn lemma_version_text_roundtrip(v: Version)
    ensures
        parse_version(version_text(v)) == Some(v),
{
    let a = decimal(v.major as nat);
    let b = decimal(v.minor as nat);
    let c = decimal(v.patch as nat);
    lemma_decimal_digits(v.major as nat);
    lemma_decimal_digits(v.minor as nat);
    lemma_decimal_digits(v.patch as nat);
    lemma_parse_decimal(v.major);
    lemma_parse_decimal(v.minor);
    lemma_parse_decimal(v.patch);
    assert forall|i: int| 0 <= i < a.len() implies a[i] != '.' by {
        assert(is_digit(a[i]));
    }
    assert forall|i: int| 0 <= i < b.len() implies b[i] != '.' by {
        assert(is_digit(b[i]));
    }
    assert forall|i: int| 0 <= i < c.len() implies c[i] != '.' by {
        assert(is_digit(c[i]));
    }
    let t = version_text(v);
    let t2 = b + seq!['.'] + c;
    assert(t =~= a + seq!['.'] + t2);
    lemma_find_after(a, '.', t2);
    lemma_find_after(b, '.', c);
    lemma_find_absent(c, '.');
    assert((a + seq!['.'] + t2).take(a.len() as int) =~= a);
    assert((a + seq!['.'] + t2).skip(a.len() as int + 1) =~= t2);
    assert(t2.take(b.len() as int) =~= b);
    assert(t2.skip(b.len() as int + 1) =~= c);
    assert(split_on(c, '.') == seq![c]);
    assert(split_on(t2, '.') =~= seq![b, c]);
    let segs = split_on(t, '.');
    assert(segs =~= seq![a, b, c]);
    assert(parse_u16_spec(segs[0]) is Some);
    assert(parse_u16_spec(segs[1]) is Some);
    assert(parse_u16_spec(segs[2]) is Some);
}

} // verus!
