//! Address arithmetic: the octet-wise wrapping encryption of IPv4 addresses
//! and the byte-wise XOR of IPv6 addresses. Addresses are handled as their
//! octet sequences; the caller converts to and from the address types.

use vstd::prelude::*;

verus! {

/// The destination address: each octet is the source octet plus the key
/// octet, wrapping around.
pub fn dest_octets(from: &Vec<u8>, key: &Vec<u8>) -> (r: Vec<u8>)
    requires
        from@.len() == key@.len(),
    ensures
        r@.len() == from@.len(),
        forall|i: int| 0 <= i < r@.len() ==> #[trigger] r@[i] as int == (from@[i] + key@[i]) % 256,
{
    let mut r: Vec<u8> = Vec::new();
    let mut i: usize = 0;
    while i < from.len()
        invariant
            i <= from@.len(),
            from@.len() == key@.len(),
            r@.len() == i,
            forall|j: int| 0 <= j < i ==> #[trigger] r@[j] as int == (from@[j] + key@[j]) % 256,
        decreases from@.len() - i,
    {
        let s: u16 = from[i] as u16 + key[i] as u16;
        r.push((s % 256) as u8);
        i = i + 1;
    }
    r
}

/// The key that turns `from` into `to`: each octet is the destination octet
/// minus the source octet, wrapping around.
pub fn key_octets(from: &Vec<u8>, to: &Vec<u8>) -> (r: Vec<u8>)
    requires
        from@.len() == to@.len(),
    ensures
        r@.len() == from@.len(),
        forall|i: int|
            0 <= i < r@.len() ==> #[trigger] r@[i] as int == (256 + to@[i] - from@[i]) % 256,
{
    let mut r: Vec<u8> = Vec::new();
    let mut i: usize = 0;
    while i < from.len()
        invariant
            i <= from@.len(),
            from@.len() == to@.len(),
            r@.len() == i,
            forall|j: int|
                0 <= j < i ==> #[trigger] r@[j] as int == (256 + to@[j] - from@[j]) % 256,
        decreases from@.len() - i,
    {
        let d: u16 = 256 + to[i] as u16 - from[i] as u16;
        r.push((d % 256) as u8);
        i = i + 1;
    }
    r
}

/// The byte-wise XOR of two equally long octet strings; both the IPv6
/// destination and the IPv6 key are this, applied to the right pair.
pub fn ipv6_xor(first: &Vec<u8>, second: &Vec<u8>) -> (r: Vec<u8>)
    requires
        first@.len() == second@.len(),
    ensures
        r@.len() == first@.len(),
        forall|i: int| 0 <= i < r@.len() ==> #[trigger] r@[i] == first@[i] ^ second@[i],
{
    let mut r: Vec<u8> = Vec::new();
    let mut i: usize = 0;
    while i < first.len()
        invariant
            i <= first@.len(),
            first@.len() == second@.len(),
            r@.len() == i,
            forall|j: int| 0 <= j < i ==> #[trigger] r@[j] == first@[j] ^ second@[j],
        decreases first@.len() - i,
    {
        r.push(first[i] ^ second[i]);
        i = i + 1;
    }
    r
}

/// Round trip: the key computed from a source and a destination, added back
/// onto the source, yields that destination.
pub proof fn lemma_key_dest_round_trip(from: Seq<u8>, to: Seq<u8>, key: Seq<u8>, back: Seq<u8>)
    requires
        from.len() == to.len(),
        key.len() == from.len(),
        back.len() == from.len(),
        forall|i: int| 0 <= i < key.len() ==> #[trigger] key[i] as int == (256 + to[i] - from[i]) % 256,
        forall|i: int| 0 <= i < back.len() ==> #[trigger] back[i] as int == (from[i] + key[i]) % 256,
    ensures
        back =~= to,
{
    assert forall|i: int| 0 <= i < back.len() implies back[i] == to[i] by {
        assert(key[i] as int == (256 + to[i] - from[i]) % 256);
        assert(back[i] as int == (from[i] + key[i]) % 256);
    }
}

} // verus!
