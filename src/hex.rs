use vstd::prelude::*;

verus! {

/// The lowercase hexadecimal digits, by value.
pub open spec fn hex_digits() -> Seq<char> {
    "0123456789abcdef"@
}

/// The lowercase digit for a value below 16.
pub open spec fn hex_char(d: nat) -> char {
    hex_digits()[d as int]
}

/// Whether `c` is a hexadecimal digit, in either case.
pub open spec fn is_hex_char(c: char) -> bool {
    ('0' <= c && c <= '9') || ('a' <= c && c <= 'f') || ('A' <= c && c <= 'F')
}

/// Whether `c` is a lowercase hexadecimal digit.
pub open spec fn is_lower_hex_char(c: char) -> bool {
    ('0' <= c && c <= '9') || ('a' <= c && c <= 'f')
}

/// Whether every character of `s` is a lowercase hexadecimal digit.
pub open spec fn all_lower_hex(s: Seq<char>) -> bool {
    forall|i: int| 0 <= i < s.len() ==> is_lower_hex_char(#[trigger] s[i])
}

/// Whether every character of `s` is a hexadecimal digit.
pub open spec fn all_hex(s: Seq<char>) -> bool {
    forall|i: int| 0 <= i < s.len() ==> is_hex_char(#[trigger] s[i])
}

/// Two lowercase digits for each byte, most significant nibble first.
pub open spec fn hex_of_bytes(b: Seq<u8>) -> Seq<char>
    decreases b.len(),
{
    if b.len() == 0 {
        seq![]
    } else {
        hex_of_bytes(b.drop_last()) + seq![
            hex_char((b.last() / 16) as nat),
            hex_char((b.last() % 16) as nat),
        ]
    }
}

/// The shortest lowercase hexadecimal numeral of `n`.
pub open spec fn hex_of_nat(n: nat) -> Seq<char>
    decreases n,
{
    if n < 16 {
        seq![hex_char(n)]
    } else {
        hex_of_nat(n / 16) + seq![hex_char(n % 16)]
    }
}

/// The numeral of `n` with at least two digits, zero-padded on the left.
pub open spec fn hex_of_nat_min2(n: nat) -> Seq<char> {
    if n < 16 {
        seq!['0', hex_char(n)]
    } else {
        hex_of_nat(n)
    }
}

/// Every digit this encoding writes is a lowercase hexadecimal digit.
pub proof fn lemma_hex_char_is_hex(d: nat)
    requires
        d < 16,
    ensures
        is_lower_hex_char(hex_char(d)),
{
    reveal_strlit("0123456789abcdef");
}

/// The byte encoding has two digits per byte, and only lowercase
/// hexadecimal digits.
pub proof fn lemma_hex_of_bytes(b: Seq<u8>)
    ensures
        hex_of_bytes(b).len() == 2 * b.len(),
        all_lower_hex(hex_of_bytes(b)),
    decreases b.len(),
{
    if b.len() > 0 {
        lemma_hex_of_bytes(b.drop_last());
        lemma_hex_char_is_hex((b.last() / 16) as nat);
        lemma_hex_char_is_hex((b.last() % 16) as nat);
        let h = hex_of_bytes(b);
        let p = hex_of_bytes(b.drop_last());
        assert forall|i: int| 0 <= i < h.len() implies is_lower_hex_char(#[trigger] h[i]) by {
            if i < p.len() {
                assert(h[i] == p[i]);
            }
        }
    }
}

/// Appends the lowercase digit of `d` to `s`.
pub fn push_hex_digit(s: &mut String, d: u8)
    requires
        d < 16,
    ensures
        final(s)@ == old(s)@ + seq![hex_char(d as nat)],
{
    let digits = "0123456789abcdef";
    proof {
        reveal_strlit("0123456789abcdef");
    }
    let one = digits.substring_char(d as usize, d as usize + 1);
    assert(one@ =~= seq![hex_char(d as nat)]);
    s.append(one);
}

/// Appends two lowercase digits for each byte of `b` to `s`.
pub fn push_hex_bytes(s: &mut String, b: &[u8])
    ensures
        final(s)@ == old(s)@ + hex_of_bytes(b@),
{
    let ghost start = s@;
    let mut i: usize = 0;
    while i < b.len()
        invariant
            i <= b@.len(),
            s@ == start + hex_of_bytes(b@.subrange(0, i as int)),
        decreases b@.len() - i,
    {
        let byte = b[i];
        push_hex_digit(s, byte / 16);
        push_hex_digit(s, byte % 16);
        proof {
            let next = b@.subrange(0, i + 1);
            assert(next.drop_last() =~= b@.subrange(0, i as int));
            assert(next.last() == byte);
        }
        i = i + 1;
    }
    assert(b@.subrange(0, b@.len() as int) =~= b@);
}

/// Appends the shortest lowercase numeral of `n` to `s`.
pub fn push_hex_u64(s: &mut String, n: u64)
    ensures
        final(s)@ == old(s)@ + hex_of_nat(n as nat),
    decreases n,
{
    if n >= 16 {
        push_hex_u64(s, n / 16);
    }
    push_hex_digit(s, (n % 16) as u8);
    assert(s@ =~= old(s)@ + hex_of_nat(n as nat));
}

/// Appends the numeral of `n`, zero-padded to at least two digits, to `s`.
pub fn push_hex_u64_min2(s: &mut String, n: u64)
    ensures
        final(s)@ == old(s)@ + hex_of_nat_min2(n as nat),
{
    if n < 16 {
        push_hex_digit(s, 0);
        push_hex_digit(s, n as u8);
        proof {
            reveal_strlit("0123456789abcdef");
        }
        assert(s@ =~= old(s)@ + hex_of_nat_min2(n as nat));
    } else {
        push_hex_u64(s, n);
    }
}

} // verus!
