use vstd::prelude::*;
use crate::client::frame_events;
use crate::codec::event_in;
use crate::hex::{hex_char, hex_digits, hex_of_bytes, is_lower_hex_char, lemma_hex_of_bytes};
use crate::hashing::blake2_256_of;
use crate::json::json_is_valid;
use crate::keys::storage_address_of;
use crate::types::{did_parse_outcome, generated_did};

verus! {

/// Different digit values have different lowercase digits.
pub proof fn lemma_hex_char_injective(a: nat, b: nat)
    requires
        a < 16,
        b < 16,
        hex_char(a) == hex_char(b),
    ensures
        a == b,
{
    reveal_strlit("0123456789abcdef");
    assert(hex_digits() =~= seq!['0', '1', '2', '3', '4', '5', '6', '7', '8', '9', 'a', 'b', 'c', 'd', 'e', 'f']);
}

/// Different byte strings have different hex encodings.
pub proof fn lemma_hex_of_bytes_injective(a: Seq<u8>, b: Seq<u8>)
    requires
        hex_of_bytes(a) == hex_of_bytes(b),
    ensures
        a == b,
    decreases a.len(),
{
    lemma_hex_of_bytes(a);
    lemma_hex_of_bytes(b);
    if a.len() > 0 {
        let ha = hex_of_bytes(a);
        let n = ha.len();
        let pa = hex_of_bytes(a.drop_last());
        let pb = hex_of_bytes(b.drop_last());
        lemma_hex_of_bytes(a.drop_last());
        lemma_hex_of_bytes(b.drop_last());
        assert(pa =~= ha.subrange(0, n - 2));
        assert(pb =~= ha.subrange(0, n - 2));
        lemma_hex_of_bytes_injective(a.drop_last(), b.drop_last());
        assert(ha[n - 2] == hex_char((a.last() / 16) as nat));
        assert(ha[n - 2] == hex_char((b.last() / 16) as nat));
        assert(ha[n - 1] == hex_char((a.last() % 16) as nat));
        assert(ha[n - 1] == hex_char((b.last() % 16) as nat));
        lemma_hex_char_injective((a.last() / 16) as nat, (b.last() / 16) as nat);
        lemma_hex_char_injective((a.last() % 16) as nat, (b.last() % 16) as nat);
        assert(a.last() == b.last());
        assert(a =~= a.drop_last().push(a.last()));
        assert(b =~= b.drop_last().push(b.last()));
    } else {
        assert(a =~= b);
    }
}

/// Under one namespace, keys whose BLAKE2b-256 digests differ get different
/// storage addresses: the encoding loses nothing of the digests.
pub proof fn lemma_distinct_key_digests_give_distinct_addresses(namespace: Seq<u8>, k1: Seq<u8>, k2: Seq<u8>)
    requires
        blake2_256_of(k1) != blake2_256_of(k2),
    ensures
        storage_address_of(namespace, k1) != storage_address_of(namespace, k2),
{
    let p = hex_of_bytes(blake2_256_of(namespace));
    let h1 = hex_of_bytes(blake2_256_of(k1));
    let h2 = hex_of_bytes(blake2_256_of(k2));
    if storage_address_of(namespace, k1) == storage_address_of(namespace, k2) {
        let s = p + h1;
        assert(h1 =~= s.subrange(p.len() as int, s.len() as int));
        assert(h2 =~= (p + h2).subrange(p.len() as int, (p + h2).len() as int));
        lemma_hex_of_bytes_injective(blake2_256_of(k1), blake2_256_of(k2));
    }
}

/// Every string made of `did:claw:` and exactly 64 lowercase hexadecimal digits
/// parses, and the identifier it gives reads back as the same string.
pub proof fn lemma_did_round_trip(s: Seq<char>)
    requires
        s.len() == 9 + 64,
        s.subrange(0, 9) == "did:claw:"@,
        forall|i: int| 9 <= i < s.len() ==> is_lower_hex_char(#[trigger] s[i]),
    ensures
        did_parse_outcome(s) == Some(s),
{
    assert forall|i: int| 0 <= i < 64 implies is_lower_hex_char(#[trigger] s.subrange(9, 73)[i]) by {
        assert(s.subrange(9, 73)[i] == s[9 + i]);
    }
}

/// A string with another prefix, another length or a character that is not
/// a lowercase hexadecimal digit after the prefix does not parse.
pub proof fn lemma_did_rejects_other_shapes(s: Seq<char>)
    requires
        s.len() != 9 + 64 || s.subrange(0, 9) != "did:claw:"@
            || exists|i: int| 9 <= i < s.len() && !is_lower_hex_char(#[trigger] s[i]),
    ensures
        did_parse_outcome(s) is None,
{
    if s.len() == 73 && s.subrange(0, 9) == "did:claw:"@ {
        let i = choose|i: int| 9 <= i < s.len() && !is_lower_hex_char(#[trigger] s[i]);
        assert(s.subrange(9, 73)[i - 9] == s[i]);
    }
}

/// Generating an identifier twice from the same metadata and owner gives the
/// same identifier.
pub proof fn lemma_generated_did_deterministic(m1: Seq<u8>, o1: Seq<char>, m2: Seq<u8>, o2: Seq<char>)
    requires
        m1 == m2,
        o1 == o2,
    ensures
        generated_did(m1, o1) == generated_did(m2, o2),
{
}

/// One malformed frame followed by a well-formed one hands exactly one
/// event to the consumer: the well-formed frame's.
pub proof fn lemma_malformed_frame_skipped(bad: Seq<char>, good: Seq<char>)
    requires
        !json_is_valid(bad),
        json_is_valid(good),
    ensures
        frame_events(seq![bad, good]) == seq![event_in(good)],
{
    let frames = seq![bad, good];
    assert(frames.drop_last() =~= seq![bad]);
    assert(seq![bad].drop_last() =~= Seq::<Seq<char>>::empty());
    assert(seq![bad].last() == bad);
    assert(frames.last() == good);
    assert(frame_events(Seq::<Seq<char>>::empty()) == Seq::<crate::types::EventModel>::empty());
    assert(frame_events(seq![bad]) =~= Seq::<crate::types::EventModel>::empty());
    assert(frame_events(frames) =~= seq![event_in(good)]);
}

} // verus!
