//! Text rendering of numbers and network addresses.
//!
//! Addresses are carried through the crate as plain integers (an IPv4
//! address as its 32-bit big-endian value, an IPv6 address as sixteen raw
//! bytes); these functions render them in the usual dotted-quad and
//! colon-separated hexadecimal forms.

use vstd::prelude::*;

verus! {

/// The decimal digit character of a value below ten.
pub open spec fn dec_digit(d: nat) -> char {
    if d == 0 {
        '0'
    } else if d == 1 {
        '1'
    } else if d == 2 {
        '2'
    } else if d == 3 {
        '3'
    } else if d == 4 {
        '4'
    } else if d == 5 {
        '5'
    } else if d == 6 {
        '6'
    } else if d == 7 {
        '7'
    } else if d == 8 {
        '8'
    } else {
        '9'
    }
}

/// The lowercase hexadecimal digit character of a value below sixteen.
pub open spec fn hex_digit(d: nat) -> char {
    if d < 10 {
        dec_digit(d)
    } else if d == 10 {
        'a'
    } else if d == 11 {
        'b'
    } else if d == 12 {
        'c'
    } else if d == 13 {
        'd'
    } else if d == 14 {
        'e'
    } else {
        'f'
    }
}

/// Decimal rendering of a natural number, most significant digit first,
/// without leading zeroes.
pub open spec fn spec_dec(v: nat) -> Seq<char>
    decreases v,
{
    if v < 10 {
        seq![dec_digit(v)]
    } else {
        spec_dec(v / 10) + seq![dec_digit(v % 10)]
    }
}

/// Lowercase hexadecimal rendering of a natural number, most significant
/// digit first, without leading zeroes.
pub open spec fn spec_hex(v: nat) -> Seq<char>
    decreases v,
{
    if v < 16 {
        seq![hex_digit(v)]
    } else {
        spec_hex(v / 16) + seq![hex_digit(v % 16)]
    }
}

/// One decimal digit as a string slice.
pub fn digit_str(d: u32) -> (s: &'static str)
    requires
        d < 10,
    ensures
        s@ =~= seq![dec_digit(d as nat)],
{
    proof {
        reveal_strlit("0");
        reveal_strlit("1");
        reveal_strlit("2");
        reveal_strlit("3");
        reveal_strlit("4");
        reveal_strlit("5");
        reveal_strlit("6");
        reveal_strlit("7");
        reveal_strlit("8");
        reveal_strlit("9");
    }
    if d == 0 {
        "0"
    } else if d == 1 {
        "1"
    } else if d == 2 {
        "2"
    } else if d == 3 {
        "3"
    } else if d == 4 {
        "4"
    } else if d == 5 {
        "5"
    } else if d == 6 {
        "6"
    } else if d == 7 {
        "7"
    } else if d == 8 {
        "8"
    } else {
        "9"
    }
}

/// One lowercase hexadecimal digit as a string slice.
fn hex_digit_str(d: u32) -> (s: &'static str)
    requires
        d < 16,
    ensures
        s@ =~= seq![hex_digit(d as nat)],
{
    proof {
        reveal_strlit("a");
        reveal_strlit("b");
        reveal_strlit("c");
        reveal_strlit("d");
        reveal_strlit("e");
        reveal_strlit("f");
    }
    if d < 10 {
        digit_str(d)
    } else if d == 10 {
        "a"
    } else if d == 11 {
        "b"
    } else if d == 12 {
        "c"
    } else if d == 13 {
        "d"
    } else if d == 14 {
        "e"
    } else {
        "f"
    }
}

/// Renders a 32-bit value in decimal.
pub fn u32_dec_string(v: u32) -> (s: String)
    ensures
        s@ =~= spec_dec(v as nat),
    decreases v,
{
    if v < 10 {
        String::from_str(digit_str(v))
    } else {
        let mut s = u32_dec_string(v / 10);
        s.append(digit_str(v % 10));
        s
    }
}

/// Renders a 16-bit value in lowercase hexadecimal without leading zeroes.
pub fn u16_hex_string(v: u16) -> (s: String)
    ensures
        s@ =~= spec_hex(v as nat),
    decreases v,
{
    if v < 16 {
        String::from_str(hex_digit_str(v as u32))
    } else {
        let mut s = u16_hex_string(v / 16);
        s.append(hex_digit_str((v % 16) as u32));
        s
    }
}

/// Dotted-quad text of an IPv4 address given as its big-endian 32-bit value.
pub open spec fn spec_ipv4_text(a: u32) -> Seq<char> {
    spec_dec((a / 0x1000000) as nat) + seq!['.'] + spec_dec(((a / 0x10000) % 0x100) as nat)
        + seq!['.'] + spec_dec(((a / 0x100) % 0x100) as nat) + seq!['.'] + spec_dec(
        (a % 0x100) as nat,
    )
}

/// Renders an IPv4 address, given as its big-endian 32-bit value, in
/// dotted-quad form.
pub fn ipv4_text(a: u32) -> (s: String)
    ensures
        s@ =~= spec_ipv4_text(a),
{
    proof {
        reveal_strlit(".");
    }
    let mut s = u32_dec_string(a / 0x1000000);
    s.append(".");
    s.append(u32_dec_string((a / 0x10000) % 0x100).as_str());
    s.append(".");
    s.append(u32_dec_string((a / 0x100) % 0x100).as_str());
    s.append(".");
    s.append(u32_dec_string(a % 0x100).as_str());
    s
}

/// The eight 16-bit groups of an IPv6 address given as sixteen bytes.
pub open spec fn spec_ipv6_groups(b: Seq<u8>) -> Seq<u16>
    recommends
        b.len() == 16,
{
    Seq::new(8, |i: int| crate::types::be16(b[2 * i], b[2 * i + 1]))
}

/// Hexadecimal groups joined with single colons.
pub open spec fn spec_join_hex(gs: Seq<u16>) -> Seq<char>
    decreases gs.len(),
{
    if gs.len() == 0 {
        seq![]
    } else if gs.len() == 1 {
        spec_hex(gs[0] as nat)
    } else {
        spec_hex(gs[0] as nat) + seq![':'] + spec_join_hex(gs.drop_first())
    }
}

/// Length of the run of zero groups starting at index `i`.
pub open spec fn spec_zero_run_len(gs: Seq<u16>, i: int) -> int
    decreases gs.len() - i,
{
    if 0 <= i < gs.len() && gs[i] == 0 {
        1 + spec_zero_run_len(gs, i + 1)
    } else {
        0
    }
}

/// Start and length of the leftmost longest run of zero groups whose start
/// is at or after index `i`.
pub open spec fn spec_best_zero_run(gs: Seq<u16>, i: int) -> (int, int)
    decreases gs.len() - i,
{
    if i >= gs.len() {
        (i, 0)
    } else {
        let here = spec_zero_run_len(gs, i);
        let later = spec_best_zero_run(gs, i + 1);
        if here >= later.1 {
            (i, here)
        } else {
            later
        }
    }
}

/// Canonical text of an IPv6 address given as sixteen bytes: lowercase
/// hexadecimal groups without leading zeroes, the leftmost longest run of
/// two or more zero groups compressed to `::`, and the IPv4-mapped form
/// rendered with a trailing dotted quad.
pub open spec fn spec_ipv6_text(b: Seq<u8>) -> Seq<char>
    recommends
        b.len() == 16,
{
    let gs = spec_ipv6_groups(b);
    if gs =~= seq![0u16, 0u16, 0u16, 0u16, 0u16, 0u16, 0u16, 0u16] {
        "::"@
    } else if gs =~= seq![0u16, 0u16, 0u16, 0u16, 0u16, 0u16, 0u16, 1u16] {
        "::1"@
    } else if gs[0] == 0 && gs[1] == 0 && gs[2] == 0 && gs[3] == 0 && gs[4] == 0 && gs[5]
        == 0xffff {
        "::ffff:"@ + spec_ipv4_text(crate::types::be32(b[12], b[13], b[14], b[15]))
    } else {
        let run = spec_best_zero_run(gs, 0);
        if run.1 >= 2 {
            spec_join_hex(gs.subrange(0, run.0)) + "::"@ + spec_join_hex(
                gs.subrange(run.0 + run.1, 8),
            )
        } else {
            spec_join_hex(gs)
        }
    }
}

/// Length of the run of zero groups starting at index `i`.
fn zero_run_len(gs: &[u16], i: usize) -> (n: usize)
    requires
        i <= gs@.len(),
    ensures
        n == spec_zero_run_len(gs@, i as int),
        i + n <= gs@.len(),
    decreases gs@.len() - i,
{
    if i < gs.len() && gs[i] == 0 {
        1 + zero_run_len(gs, i + 1)
    } else {
        0
    }
}

/// Leftmost longest run of zero groups starting at or after index `i`.
fn best_zero_run(gs: &[u16], i: usize) -> (r: (usize, usize))
    requires
        i <= gs@.len(),
    ensures
        (r.0 as int, r.1 as int) == spec_best_zero_run(gs@, i as int),
        r.0 + r.1 <= gs@.len() || r.1 == 0,
    decreases gs@.len() - i,
{
    if i >= gs.len() {
        (i, 0)
    } else {
        let here = zero_run_len(gs, i);
        let later = best_zero_run(gs, i + 1);
        if here >= later.1 {
            (i, here)
        } else {
            later
        }
    }
}

/// Hexadecimal groups joined with single colons.
fn join_hex(gs: &[u16]) -> (s: String)
    ensures
        s@ =~= spec_join_hex(gs@),
    decreases gs@.len(),
{
    proof {
        reveal_strlit(":");
    }
    if gs.len() == 0 {
        String::new()
    } else if gs.len() == 1 {
        u16_hex_string(gs[0])
    } else {
        let mut s = u16_hex_string(gs[0]);
        s.append(":");
        s.append(join_hex(&gs[1..gs.len()]).as_str());
        proof {
            assert(gs@.subrange(1, gs@.len() as int) =~= gs@.drop_first());
        }
        s
    }
}

/// Renders an IPv6 address, given as sixteen raw bytes, in canonical
/// colon-separated hexadecimal form.
pub fn ipv6_text(b: &[u8]) -> (s: String)
    requires
        b@.len() == 16,
    ensures
        s@ =~= spec_ipv6_text(b@),
{
    let mut gs: Vec<u16> = Vec::new();
    let mut k: usize = 0;
    while k < 8
        invariant
            k <= 8,
            b@.len() == 16,
            gs@.len() == k,
            forall|j: int| 0 <= j < k ==> gs@[j] == crate::types::be16(b@[2 * j], b@[2 * j + 1]),
        decreases 8 - k,
    {
        gs.push(crate::types::read_be16(b[2 * k], b[2 * k + 1]));
        k += 1;
    }
    proof {
        assert(gs@ =~= spec_ipv6_groups(b@));
    }
    let all_zero = gs[0] == 0 && gs[1] == 0 && gs[2] == 0 && gs[3] == 0 && gs[4] == 0 && gs[5] == 0
        && gs[6] == 0;
    if all_zero && gs[7] == 0 {
        proof {
            assert(gs@ =~= seq![0u16, 0u16, 0u16, 0u16, 0u16, 0u16, 0u16, 0u16]);
        }
        return String::from_str("::");
    }
    if all_zero && gs[7] == 1 {
        proof {
            assert(gs@ =~= seq![0u16, 0u16, 0u16, 0u16, 0u16, 0u16, 0u16, 1u16]);
        }
        return String::from_str("::1");
    }
    if gs[0] == 0 && gs[1] == 0 && gs[2] == 0 && gs[3] == 0 && gs[4] == 0 && gs[5] == 0xffff {
        let mut s = String::from_str("::ffff:");
        s.append(ipv4_text(crate::types::read_be32(b[12], b[13], b[14], b[15])).as_str());
        return s;
    }
    let (start, len) = best_zero_run(gs.as_slice(), 0);
    if len >= 2 {
        let mut s = join_hex(&gs.as_slice()[0..start]);
        s.append("::");
        s.append(join_hex(&gs.as_slice()[start + len..8]).as_str());
        proof {
            reveal_strlit("::");
        }
        s
    } else {
        join_hex(gs.as_slice())
    }
}

} // verus!
