use crate::address::Address;
use vstd::bytes::{
    lemma_auto_spec_u64_to_from_le_bytes, spec_u64_from_le_bytes, spec_u64_to_le_bytes,
    u64_from_le_bytes, u64_to_le_bytes,
};
use vstd::prelude::*;
use vstd::slice::slice_subrange;

verus! {

/// The address whose 32 bytes are the first 32 of `s`.
pub open spec fn address_from(s: Seq<u8>) -> Address {
    Address {
        bytes: [
            s[0], s[1], s[2], s[3], s[4], s[5], s[6], s[7], s[8], s[9], s[10], s[11], s[12], s[13],
            s[14], s[15], s[16], s[17], s[18], s[19], s[20], s[21], s[22], s[23], s[24], s[25],
            s[26], s[27], s[28], s[29], s[30], s[31],
        ],
    }
}

/// The address that `data` holds from `at` on.
pub open spec fn address_at(data: Seq<u8>, at: int) -> Address {
    address_from(data.subrange(at, at + 32))
}

/// The amount that `data` holds from `at` on, in eight bytes, low byte first.
pub open spec fn u64_at(data: Seq<u8>, at: int) -> u64 {
    spec_u64_from_le_bytes(data.subrange(at, at + 8))
}

/// An address is the address of its bytes.
pub proof fn lemma_address_from_view(a: Address, s: Seq<u8>)
    ensures
        address_from(a@) == a,
        s.len() == 32 ==> address_from(s)@ == s,
{
    assert(address_from(a@).bytes =~= a.bytes);
    if s.len() == 32 {
        assert(address_from(s)@ =~= s);
    }
}

/// An amount is read back from its eight bytes, and eight bytes from their amount.
pub proof fn lemma_u64_bytes(x: u64, s: Seq<u8>)
    ensures
        spec_u64_to_le_bytes(x).len() == 8,
        spec_u64_from_le_bytes(spec_u64_to_le_bytes(x)) == x,
        s.len() == 8 ==> spec_u64_to_le_bytes(spec_u64_from_le_bytes(s)) == s,
{
    lemma_auto_spec_u64_to_from_le_bytes();
}

/// Appends the eight bytes of `x`, low byte first.
pub(crate) fn put_u64(buffer: &mut Vec<u8>, x: u64)
    ensures
        final(buffer)@ == old(buffer)@ + spec_u64_to_le_bytes(x),
{
    let mut bytes = u64_to_le_bytes(x);
    buffer.append(&mut bytes);
}

/// Appends the 32 bytes of `a`.
pub(crate) fn put_address(buffer: &mut Vec<u8>, a: &Address)
    ensures
        final(buffer)@ == old(buffer)@ + a@,
{
    let mut i: usize = 0;
    while i < 32
        invariant
            i <= 32,
            buffer@ == old(buffer)@ + a@.subrange(0, i as int),
        decreases 32 - i,
    {
        buffer.push(a.bytes[i]);
        i = i + 1;
        assert(buffer@ =~= old(buffer)@ + a@.subrange(0, i as int));
    }
    assert(a@.subrange(0, 32) =~= a@);
}

/// The amount in the eight bytes of `data` from `at` on.
pub(crate) fn get_u64(data: &[u8], at: usize) -> (r: u64)
    requires
        at + 8 <= data@.len(),
    ensures
        r == u64_at(data@, at as int),
{
    let n = data.len();
    assert(at + 8 <= n);
    u64_from_le_bytes(slice_subrange(data, at, at + 8))
}

/// The address in the 32 bytes of `data` from `at` on.
pub(crate) fn get_address(data: &[u8], at: usize) -> (r: Address)
    requires
        at + 32 <= data@.len(),
    ensures
        r == address_at(data@, at as int),
        r@ == data@.subrange(at as int, at + 32),
{
    let n = data.len();
    let mut bytes = [0u8;32];
    let mut i: usize = 0;
    while i < 32
        invariant
            i <= 32,
            at + 32 <= data@.len(),
            n == data@.len(),
            forall|j: int| 0 <= j < i ==> bytes@[j] == data@[at + j],
        decreases 32 - i,
    {
        bytes[i] = data[at + i];
        i = i + 1;
    }
    let r = Address { bytes };
    assert(r@ =~= data@.subrange(at as int, at + 32));
    assert(r.bytes =~= address_at(data@, at as int).bytes);
    r
}

} // verus!
