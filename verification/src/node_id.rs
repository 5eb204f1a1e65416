//! Node identities and their textual form.
//!
//! A node is identified by a 64-bit token. Its textual form — the shape in
//! which it travels inside a message's destination header — is exactly
//! sixteen hexadecimal digits. Parsing accepts both letter cases; printing
//! emits lower case.

use vstd::prelude::*;
use vstd::string::StrSliceExecFns;

verus! {

/// A node's identity within the cluster.
#[derive(Clone, Copy, PartialEq, Eq, Structural, Debug)]
pub struct NodeId {
    pub value: u64,
}

/// Whether `c` is an ASCII hexadecimal digit, of either case.
pub open spec fn is_hex_digit(c: char) -> bool {
    ||| '0' as u32 <= c as u32 && c as u32 <= '9' as u32
    ||| 'a' as u32 <= c as u32 && c as u32 <= 'f' as u32
    ||| 'A' as u32 <= c as u32 && c as u32 <= 'F' as u32
}

/// The numeric value of a hexadecimal digit; zero on any other character.
pub open spec fn hex_digit_value(c: char) -> nat {
    if '0' as u32 <= c as u32 && c as u32 <= '9' as u32 {
        (c as u32 - '0' as u32) as nat
    } else if 'a' as u32 <= c as u32 && c as u32 <= 'f' as u32 {
        (c as u32 - 'a' as u32 + 10) as nat
    } else if 'A' as u32 <= c as u32 && c as u32 <= 'F' as u32 {
        (c as u32 - 'A' as u32 + 10) as nat
    } else {
        0
    }
}

/// `16^n`.
pub open spec fn pow16(n: nat) -> nat
    decreases n,
{
    if n == 0 {
        1
    } else {
        16 * pow16((n - 1) as nat)
    }
}

/// The value of a big-endian sequence of hexadecimal digits.
pub open spec fn hex_seq_value(s: Seq<char>) -> nat
    decreases s.len(),
{
    if s.len() == 0 {
        0
    } else {
        hex_seq_value(s.drop_last()) * 16 + hex_digit_value(s.last())
    }
}

/// What parsing a destination token yields: the identity encoded by
/// exactly sixteen hexadecimal digits, and nothing on any other string.
pub open spec fn spec_parse_node_id(s: Seq<char>) -> Option<NodeId> {
    if s.len() == 16 && (forall|i: int| 0 <= i < s.len() ==> is_hex_digit(s[i])) {
        Some(NodeId { value: hex_seq_value(s) as u64 })
    } else {
        None
    }
}

/// Every hexadecimal digit is worth at most fifteen.
pub proof fn lemma_hex_digit_value_bound(c: char)
    ensures
        hex_digit_value(c) <= 15,
{
}

/// A sequence of `n` digits encodes a value below `16^n`.
pub proof fn lemma_hex_seq_value_bound(s: Seq<char>)
    ensures
        hex_seq_value(s) < pow16(s.len()),
    decreases s.len(),
{
    if s.len() > 0 {
        lemma_hex_seq_value_bound(s.drop_last());
        lemma_hex_digit_value_bound(s.last());
    }
}

/// `16^n` does not decrease as `n` grows.
pub proof fn lemma_pow16_monotonic(a: nat, b: nat)
    requires
        a <= b,
    ensures
        pow16(a) <= pow16(b),
    decreases b,
{
    if a < b {
        lemma_pow16_monotonic(a, (b - 1) as nat);
    }
}

/// Parses one hexadecimal digit.
pub fn hex_digit_val(c: char) -> (r: Option<u8>)
    ensures
        r is Some <==> is_hex_digit(c),
        r matches Some(d) ==> d as nat == hex_digit_value(c) && d < 16,
{
    let u = c as u32;
    if 48 <= u && u <= 57 {
        Some((u - 48) as u8)
    } else if 97 <= u && u <= 102 {
        Some((u - 97 + 10) as u8)
    } else if 65 <= u && u <= 70 {
        Some((u - 65 + 10) as u8)
    } else {
        None
    }
}

/// Parses a destination token into a node identity.
///
/// Succeeds exactly on strings of sixteen hexadecimal digits; every other
/// string — too short, too long, or holding any other character — yields
/// nothing.
pub fn parse_node_id(s: &str) -> (r: Option<NodeId>)
    ensures
        r == spec_parse_node_id(s@),
{
    let n = s.unicode_len();
    if n != 16 {
        return None;
    }
    let mut value: u64 = 0;
    let mut i: usize = 0;
    while i < 16
        invariant
            s@.len() == 16,
            0 <= i <= 16,
            forall|j: int| 0 <= j < i ==> is_hex_digit(s@[j]),
            value as nat == hex_seq_value(s@.take(i as int)),
            (value as nat) < pow16(i as nat),
        decreases 16 - i,
    {
        let c = s.get_char(i);
        match hex_digit_val(c) {
            None => {
                assert(!is_hex_digit(s@[i as int]));
                return None;
            },
            Some(d) => {
                proof {
                    lemma_pow16_monotonic(i as nat + 1, 16);
                    assert(pow16(16) == 0x1_0000_0000_0000_0000) by {
                        reveal_with_fuel(pow16, 17);
                    }
                    assert(s@.take(i + 1).drop_last() =~= s@.take(i as int));
                    assert(s@.take(i + 1).last() == s@[i as int]);
                }
                value = value * 16 + (d as u64);
            },
        }
        i += 1;
    }
    proof {
        assert(s@.take(16) =~= s@);
    }
    Some(NodeId { value })
}

/// The lower-case hexadecimal digit worth `d`; `'0'` on anything above fifteen.
pub open spec fn hex_char_of(d: nat) -> char {
    if d == 0 { '0' } else if d == 1 { '1' } else if d == 2 { '2' } else if d == 3 { '3' }
    else if d == 4 { '4' } else if d == 5 { '5' } else if d == 6 { '6' } else if d == 7 { '7' }
    else if d == 8 { '8' } else if d == 9 { '9' } else if d == 10 { 'a' } else if d == 11 { 'b' }
    else if d == 12 { 'c' } else if d == 13 { 'd' } else if d == 14 { 'e' } else if d == 15 { 'f' }
    else { '0' }
}

/// The `n`-digit lower-case hexadecimal form of the `n` least significant
/// digits of `v`, most significant digit first.
pub open spec fn to_hex_seq(v: nat, n: nat) -> Seq<char>
    decreases n,
{
    if n == 0 {
        Seq::empty()
    } else {
        to_hex_seq(v / 16, (n - 1) as nat).push(hex_char_of(v % 16))
    }
}

/// The textual form of a node identity: sixteen lower-case hexadecimal digits.
pub open spec fn spec_node_id_chars(id: NodeId) -> Seq<char> {
    to_hex_seq(id.value as nat, 16)
}

/// A digit below sixteen prints as a hexadecimal digit of the same worth.
pub proof fn lemma_hex_char_of(d: nat)
    requires
        d < 16,
    ensures
        is_hex_digit(hex_char_of(d)),
        hex_digit_value(hex_char_of(d)) == d,
{
}

/// A printed sequence has the requested length and holds digits only.
pub proof fn lemma_to_hex_seq_wf(v: nat, n: nat)
    ensures
        to_hex_seq(v, n).len() == n,
        forall|i: int| 0 <= i < n ==> is_hex_digit(#[trigger] to_hex_seq(v, n)[i]),
    decreases n,
{
    if n > 0 {
        lemma_to_hex_seq_wf(v / 16, (n - 1) as nat);
        lemma_hex_char_of(v % 16);
    }
}

/// Printing a value below `16^n` on `n` digits and reading the digits back
/// returns the value.
pub proof fn lemma_to_hex_seq_value(v: nat, n: nat)
    requires
        v < pow16(n),
    ensures
        hex_seq_value(to_hex_seq(v, n)) == v,
    decreases n,
{
    if n == 0 {
    } else {
        assert(v / 16 < pow16((n - 1) as nat)) by (nonlinear_arith)
            requires
                v < 16 * pow16((n - 1) as nat),
        ;
        lemma_to_hex_seq_value(v / 16, (n - 1) as nat);
        lemma_hex_char_of(v % 16);
        let s = to_hex_seq(v, n);
        assert(s.drop_last() =~= to_hex_seq(v / 16, (n - 1) as nat));
        assert(v % 16 + 16 * (v / 16) == v) by (nonlinear_arith);
    }
}

/// Law: printing an identity and parsing the result returns the identity.
pub proof fn lemma_node_id_roundtrip(id: NodeId)
    ensures
        spec_parse_node_id(spec_node_id_chars(id)) == Some(id),
{
    lemma_to_hex_seq_wf(id.value as nat, 16);
    assert(pow16(16) == 0x1_0000_0000_0000_0000) by {
        reveal_with_fuel(pow16, 17);
    }
    lemma_to_hex_seq_value(id.value as nat, 16);
}

/// The lower-case digit string worth `d`.
fn hex_char_str(d: u8) -> (s: &'static str)
    requires
        d < 16,
    ensures
        s@ == seq![hex_char_of(d as nat)],
{
    proof {
        reveal_strlit("0");
        reveal_strlit("1");
        reveal_strlit("2");
        reveal_strlit("3");
        reveal_strlit("4");
        reveal_strlit("5");
        reveal_strlit("6");
        reveal_strlit("7");
        reveal_strlit("8");
        reveal_strlit("9");
        reveal_strlit("a");
        reveal_strlit("b");
        reveal_strlit("c");
        reveal_strlit("d");
        reveal_strlit("e");
        reveal_strlit("f");
    }
    match d {
        0 => "0",
        1 => "1",
        2 => "2",
        3 => "3",
        4 => "4",
        5 => "5",
        6 => "6",
        7 => "7",
        8 => "8",
        9 => "9",
        10 => "a",
        11 => "b",
        12 => "c",
        13 => "d",
        14 => "e",
        _ => "f",
    }
}

/// Appends the `n`-digit lower-case hexadecimal form of `v` to `out`.
fn push_hex(out: &mut String, v: u64, n: usize)
    ensures
        final(out)@ == old(out)@ + to_hex_seq(v as nat, n as nat),
    decreases n,
{
    if n == 0 {
        proof {
            assert(old(out)@ + to_hex_seq(v as nat, 0) =~= old(out)@);
        }
        return;
    }
    push_hex(out, v / 16, n - 1);
    let digit = hex_char_str((v % 16) as u8);
    out.append(digit);
    proof {
        assert(out@ =~= old(out)@ + to_hex_seq(v as nat, n as nat));
    }
}

impl NodeId {
    /// Renders the identity as sixteen lower-case hexadecimal digits —
    /// the form `parse_node_id` reads back.
    pub fn to_hex_string(&self) -> (s: String)
        ensures
            s@ == spec_node_id_chars(*self),
    {
        let mut out = String::new();
        push_hex(&mut out, self.value, 16);
        proof {
            assert(out@ =~= spec_node_id_chars(*self));
        }
        out
    }
}

} // verus!
