//! Node identity handles.
//!
//! An `Id` is an opaque 64-bit value that appears on the wire as a string:
//! `0x` followed by hexadecimal digits.  The codec only carries these values;
//! it never resolves what they refer to.

use vstd::prelude::*;
use vstd::string::StringExecFns;

verus! {

/// An opaque 64-bit identity token, compared by raw value.
#[derive(Copy, Clone, Default, Eq, PartialEq, Structural, Ord, PartialOrd, Hash, Debug)]
pub struct Id {
    pub id: u64,
}

/// The value of one hexadecimal digit character, or `-1` for any other
/// character.  Both letter cases are accepted, as the wire producer's parser
/// accepts them.
pub open spec fn hexv(c: char) -> int {
    let u = c as u32;
    if 48 <= u && u <= 57 {
        u - 48
    } else if 97 <= u && u <= 102 {
        u - 87
    } else if 65 <= u && u <= 70 {
        u - 55
    } else {
        -1
    }
}

/// Total digit value: hex digits keep their value, anything else counts 0.
pub open spec fn hvd(c: char) -> int {
    if hexv(c) < 0 {
        0
    } else {
        hexv(c)
    }
}

/// The number a digit string denotes, most significant digit first.
pub open spec fn hv(s: Seq<char>) -> int
    decreases s,
{
    if s.len() == 0 {
        0
    } else {
        hv(s.drop_last()) * 16 + hvd(s.last())
    }
}

/// Every character is a hexadecimal digit.
pub open spec fn all_hex(s: Seq<char>) -> bool {
    forall|i: int| 0 <= i < s.len() ==> hexv(s[i]) >= 0
}

/// A well-formed wire form of an id: `0x`, then at least one hex digit, and
/// a denoted value that fits in 64 bits.
pub open spec fn id_ok(s: Seq<char>) -> bool {
    &&& s.len() >= 3
    &&& s[0] == '0'
    &&& s[1] == 'x'
    &&& all_hex(s.skip(2))
    &&& hv(s.skip(2)) < 0x1_0000_0000_0000_0000
}

/// The value a well-formed wire form denotes.
pub open spec fn id_val(s: Seq<char>) -> int {
    hv(s.skip(2))
}

/// The lowercase hexadecimal digits of `v`, no leading zeros (`0` for zero).
pub open spec fn hex_repr(v: int) -> Seq<char>
    decreases v,
    when v >= 0
{
    if v < 16 {
        seq![hex_char(v)]
    } else {
        hex_repr(v / 16).push(hex_char(v % 16))
    }
}

/// The canonical wire form of a value: `0x` plus lowercase minimal digits.
pub open spec fn id_repr(v: int) -> Seq<char> {
    "0x"@ + hex_repr(v)
}

/// The lowercase character of one digit value.
pub open spec fn hex_char(d: int) -> char {
    if d == 0 { '0' } else if d == 1 { '1' } else if d == 2 { '2' } else if d == 3 { '3' }
    else if d == 4 { '4' } else if d == 5 { '5' } else if d == 6 { '6' } else if d == 7 { '7' }
    else if d == 8 { '8' } else if d == 9 { '9' } else if d == 10 { 'a' } else if d == 11 { 'b' }
    else if d == 12 { 'c' } else if d == 13 { 'd' } else if d == 14 { 'e' } else { 'f' }
}

/// `hv` never goes negative.
pub proof fn lemma_hv_nonneg(s: Seq<char>)
    ensures
        hv(s) >= 0,
    decreases s,
{
    if s.len() > 0 {
        lemma_hv_nonneg(s.drop_last());
    }
}

/// Reading one more digit multiplies by 16 and adds the digit.
pub proof fn lemma_hv_extend(s: Seq<char>, i: int)
    requires
        0 <= i < s.len(),
    ensures
        hv(s.subrange(0, i + 1)) == hv(s.subrange(0, i)) * 16 + hvd(s[i]),
{
    assert(s.subrange(0, i + 1).drop_last() =~= s.subrange(0, i));
    assert(s.subrange(0, i + 1).last() == s[i]);
}

/// Longer digit prefixes denote values at least as large.
pub proof fn lemma_hv_mono(s: Seq<char>, i: int, j: int)
    requires
        0 <= i <= j <= s.len(),
    ensures
        hv(s.subrange(0, i)) <= hv(s.subrange(0, j)),
    decreases j - i,
{
    if i < j {
        lemma_hv_mono(s, i, j - 1);
        lemma_hv_extend(s, j - 1);
        lemma_hv_nonneg(s.subrange(0, j - 1));
    }
}

impl Id {
    /// The null id, used when a node carries no `id` field.
    pub fn null() -> (r: Id)
        ensures
            r.id == 0,
    {
        Id { id: 0 }
    }

    /// Parse the wire form: `Some` exactly on `0x` followed by one or more
    /// hexadecimal digits denoting a value that fits in 64 bits, and the
    /// parsed value is the denoted one.
    pub fn parse(s: &str) -> (r: Option<Id>)
        ensures
            match r {
                Some(id) => id_ok(s@) && id.id as int == id_val(s@),
                None => !id_ok(s@),
            },
    {
        let n = s.unicode_len();
        if n < 3 {
            return None;
        }
        if s.get_char(0) != '0' || s.get_char(1) != 'x' {
            return None;
        }
        let ghost digits = s@.skip(2);
        let mut v: u64 = 0;
        let mut i: usize = 2;
        proof {
            assert(digits.subrange(0, 0) =~= Seq::<char>::empty());
        }
        while i < n
            invariant
                2 <= i <= n,
                n == s@.len(),
                digits == s@.skip(2),
                all_hex(digits.subrange(0, i - 2)),
                v as int == hv(digits.subrange(0, i - 2)),
            decreases n - i,
        {
            let c = s.get_char(i);
            proof {
                assert(digits[i - 2] == s@[i as int]);
            }
            let d = match hex_val(c) {
                Some(d) => d,
                None => {
                    proof {
                        assert(hexv(digits[i - 2]) < 0);
                    }
                    return None;
                },
            };
            if v >= 0x1000_0000_0000_0000 {
                proof {
                    lemma_hv_extend(digits, i - 2);
                    lemma_hv_mono(digits, i - 1, digits.len() as int);
                    assert(digits.subrange(0, digits.len() as int) =~= digits);
                }
                return None;
            }
            proof {
                lemma_hv_extend(digits, i - 2);
            }
            v = v * 16 + (d as u64);
            i = i + 1;
        }
        proof {
            assert(digits.subrange(0, digits.len() as int) =~= digits);
        }
        Some(Id { id: v })
    }

    /// The canonical wire form: `0x` plus minimal lowercase hexadecimal.
    pub fn to_hex(&self) -> (r: String)
        ensures
            r@ == id_repr(self.id as int),
    {
        let mut out = String::from_str("0x");
        push_hex(self.id, &mut out);
        out
    }
}

/// The value of one hexadecimal digit character, in executable form.
fn hex_val(c: char) -> (r: Option<u8>)
    ensures
        match r {
            Some(d) => hexv(c) == d as int && d < 16,
            None => hexv(c) < 0,
        },
{
    let u = c as u32;
    if 48 <= u && u <= 57 {
        Some((u - 48) as u8)
    } else if 97 <= u && u <= 102 {
        Some((u - 87) as u8)
    } else if 65 <= u && u <= 70 {
        Some((u - 55) as u8)
    } else {
        None
    }
}

/// The single-character string of one digit value.
fn hex_char_str(d: u64) -> (r: &'static str)
    requires
        d < 16,
    ensures
        r@ =~= seq![hex_char(d as int)],
{
    proof {
        reveal_strlit("0");
        reveal_strlit("1");
        reveal_strlit("2");
        reveal_strlit("3");
        reveal_strlit("4");
        reveal_strlit("5");
        reveal_strlit("6");
        reveal_strlit("7");
        reveal_strlit("8");
        reveal_strlit("9");
        reveal_strlit("a");
        reveal_strlit("b");
        reveal_strlit("c");
        reveal_strlit("d");
        reveal_strlit("e");
        reveal_strlit("f");
    }
    if d == 0 { "0" } else if d == 1 { "1" } else if d == 2 { "2" } else if d == 3 { "3" }
    else if d == 4 { "4" } else if d == 5 { "5" } else if d == 6 { "6" } else if d == 7 { "7" }
    else if d == 8 { "8" } else if d == 9 { "9" } else if d == 10 { "a" } else if d == 11 { "b" }
    else if d == 12 { "c" } else if d == 13 { "d" } else if d == 14 { "e" } else { "f" }
}

/// Append the minimal hexadecimal digits of `v`.
fn push_hex(v: u64, out: &mut String)
    ensures
        final(out)@ == old(out)@ + hex_repr(v as int),
    decreases v,
{
    if v < 16 {
        out.append(hex_char_str(v));
        proof {
            assert(old(out)@ + seq![hex_char(v as int)] =~= old(out)@ + hex_repr(v as int));
        }
    } else {
        push_hex(v / 16, out);
        out.append(hex_char_str(v % 16));
        proof {
            let a = old(out)@ + hex_repr(v as int / 16) + seq![hex_char(v as int % 16)];
            assert(a =~= old(out)@ + hex_repr(v as int));
        }
    }
}

/// Formatting a value and parsing the result yields the value back: the
/// canonical wire form is well-formed and denotes what it was made from.
pub proof fn lemma_id_round_trip(v: u64)
    ensures
        id_ok(id_repr(v as int)),
        id_val(id_repr(v as int)) == v as int,
{
    reveal_strlit("0x");
    lemma_hex_repr_val(v as int);
    assert(id_repr(v as int).skip(2) =~= hex_repr(v as int));
    assert(id_repr(v as int)[0] == '0');
    assert(id_repr(v as int)[1] == 'x');
}

/// The digits formatted from `v` are hexadecimal and denote `v`.
pub proof fn lemma_hex_repr_val(v: int)
    requires
        v >= 0,
    ensures
        hex_repr(v).len() >= 1,
        all_hex(hex_repr(v)),
        hv(hex_repr(v)) == v,
    decreases v,
{
    lemma_hex_char_val(if v < 16 { v } else { v % 16 });
    if v < 16 {
        assert(hex_repr(v) =~= seq![hex_char(v)]);
        assert(hex_repr(v).len() == 1);
        assert(hex_repr(v).drop_last() =~= Seq::<char>::empty());
        assert(hv(hex_repr(v).drop_last()) == 0);
        assert(hex_repr(v).last() == hex_char(v));
        assert(hv(hex_repr(v)) == hvd(hex_char(v)));
        assert(hvd(hex_char(v)) == v);
    } else {
        lemma_hex_repr_val(v / 16);
        assert(hex_repr(v) == hex_repr(v / 16).push(hex_char(v % 16)));
        assert(hex_repr(v).len() == hex_repr(v / 16).len() + 1);
        assert(hex_repr(v).drop_last() =~= hex_repr(v / 16));
        assert(hex_repr(v).last() == hex_char(v % 16));
        assert(hv(hex_repr(v)) == hv(hex_repr(v / 16)) * 16 + hvd(hex_char(v % 16)));
        assert(hvd(hex_char(v % 16)) == v % 16);
        assert((v / 16) * 16 + v % 16 == v);
        assert forall|i: int| 0 <= i < hex_repr(v).len() implies hexv(hex_repr(v)[i]) >= 0 by {
            if i < hex_repr(v).len() - 1 {
                assert(hex_repr(v)[i] == hex_repr(v / 16)[i]);
            }
        }
    }
}

/// A digit character formatted from a digit value reads back as that value.
pub proof fn lemma_hex_char_val(d: int)
    requires
        0 <= d < 16,
    ensures
        hexv(hex_char(d)) == d,
{
}

} // verus!
