//! The fixed layout in which records and payloads are stored: 64-bit
//! integers in little-endian order, flags as one byte that is 0 or 1, and
//! account identifiers as their 32 bytes. Integers and flags are read and
//! written by `borsh`.

use crate::pubkey::{address_of, lemma_address_of, Address};
use borsh::{BorshDeserialize, BorshSerialize};
use vstd::bytes::{
    lemma_auto_spec_u64_to_from_le_bytes, spec_u64_from_le_bytes, spec_u64_to_le_bytes,
};
use vstd::prelude::*;
use vstd::slice::slice_subrange;

verus! {

/// The integer that exactly eight bytes encode; no other length encodes one.
pub open spec fn decoded_u64(bytes: Seq<u8>) -> Option<u64> {
    if bytes.len() == 8 {
        Some(spec_u64_from_le_bytes(bytes))
    } else {
        None
    }
}

/// The flag that exactly one byte encodes: 0 is false, 1 is true, and no
/// other byte is a flag.
pub open spec fn decoded_bool(bytes: Seq<u8>) -> Option<bool> {
    if bytes.len() == 1 && bytes[0] == 0 {
        Some(false)
    } else if bytes.len() == 1 && bytes[0] == 1 {
        Some(true)
    } else {
        None
    }
}

/// The eight bytes that encode an integer.
pub open spec fn encoded_u64(value: u64) -> Seq<u8> {
    spec_u64_to_le_bytes(value)
}

/// The byte that encodes a flag.
pub open spec fn encoded_bool(flag: bool) -> Seq<u8> {
    seq![if flag { 1u8 } else { 0u8 }]
}

/// Calls `borsh::BorshDeserialize::try_from_slice` for `u64`.
///
/// Trusted: eight bytes give the integer they hold in little-endian order,
/// any other number of bytes gives nothing.
#[verifier::external_body]
pub(crate) fn read_u64(bytes: &[u8]) -> (value: Option<u64>)
    ensures
        value == decoded_u64(bytes@),
{
    u64::try_from_slice(bytes).ok()
}

/// Calls `borsh::BorshDeserialize::try_from_slice` for `bool`.
///
/// Trusted: the single byte 0 gives false, the single byte 1 gives true,
/// anything else gives nothing.
#[verifier::external_body]
pub(crate) fn read_bool(bytes: &[u8]) -> (flag: Option<bool>)
    ensures
        flag == decoded_bool(bytes@),
{
    bool::try_from_slice(bytes).ok()
}

/// Calls `borsh::BorshSerialize::try_to_vec` for `u64`.
///
/// Trusted: writing into a vector does not fail, and gives the eight bytes
/// of the integer in little-endian order.
#[verifier::external_body]
pub(crate) fn write_u64(value: u64) -> (bytes: Option<Vec<u8>>)
    ensures
        match bytes {
            Some(b) => b@ == encoded_u64(value),
            None => false,
        },
{
    value.try_to_vec().ok()
}

/// Calls `borsh::BorshSerialize::try_to_vec` for `bool`.
///
/// Trusted: writing into a vector does not fail, and gives one byte, 1 for
/// true and 0 for false.
#[verifier::external_body]
pub(crate) fn write_bool(flag: bool) -> (bytes: Option<Vec<u8>>)
    ensures
        match bytes {
            Some(b) => b@ == encoded_bool(flag),
            None => false,
        },
{
    flag.try_to_vec().ok()
}

/// An encoded integer takes eight bytes and an encoded flag one.
pub broadcast proof fn lemma_encoded_lengths(value: u64, flag: bool)
    ensures
        #![trigger encoded_u64(value), encoded_bool(flag)]
        encoded_u64(value).len() == 8,
        encoded_bool(flag).len() == 1,
{
    lemma_auto_spec_u64_to_from_le_bytes();
}

/// The integer stored in the eight bytes from `offset` on.
pub open spec fn u64_at(data: Seq<u8>, offset: int) -> u64 {
    spec_u64_from_le_bytes(data.subrange(offset, offset + 8))
}

/// The flag stored in the byte at `offset`, if that byte is a flag.
pub open spec fn bool_at(data: Seq<u8>, offset: int) -> Option<bool> {
    decoded_bool(data.subrange(offset, offset + 1))
}

/// The identifier stored in the 32 bytes from `offset` on.
pub open spec fn address_at(data: Seq<u8>, offset: int) -> Address {
    address_of(data.subrange(offset, offset + 32))
}

/// An integer is read back from where it was stored: if the eight bytes of
/// `data` from `offset` on are the encoding of `value`, `value` is what is
/// read there.
pub proof fn lemma_u64_stored(data: Seq<u8>, offset: int, value: u64)
    requires
        0 <= offset,
        offset + 8 <= data.len(),
        data.subrange(offset, offset + 8) == encoded_u64(value),
    ensures
        u64_at(data, offset) == value,
{
    lemma_auto_spec_u64_to_from_le_bytes();
}

/// A flag is read back from where it was stored.
pub proof fn lemma_bool_stored(data: Seq<u8>, offset: int, flag: bool)
    requires
        0 <= offset < data.len(),
        data.subrange(offset, offset + 1) == encoded_bool(flag),
    ensures
        bool_at(data, offset) == Some(flag),
{
}

/// An identifier is read back from where it was stored.
pub proof fn lemma_address_stored(data: Seq<u8>, offset: int, address: Address)
    requires
        0 <= offset,
        offset + 32 <= data.len(),
        data.subrange(offset, offset + 32) == address@,
    ensures
        address_at(data, offset) == address,
{
    lemma_address_of(address@);
    address.lemma_view_injective(address_of(address@));
}

/// Reads the integer stored in the eight bytes from `offset` on.
pub(crate) fn get_u64(data: &[u8], offset: usize) -> (value: u64)
    requires
        offset + 8 <= data@.len() <= usize::MAX,
    ensures
        value == u64_at(data@, offset as int),
{
    let field = slice_subrange(data, offset, offset + 8);
    read_u64(field).unwrap()
}

/// Reads the flag stored in the byte at `offset`.
pub(crate) fn get_bool(data: &[u8], offset: usize) -> (flag: Option<bool>)
    requires
        offset < data@.len() <= usize::MAX,
    ensures
        flag == bool_at(data@, offset as int),
{
    let field = slice_subrange(data, offset, offset + 1);
    read_bool(field)
}

/// Reads the identifier stored in the 32 bytes from `offset` on.
pub(crate) fn get_address(data: &[u8], offset: usize) -> (address: Address)
    requires
        offset + 32 <= data@.len() <= usize::MAX,
    ensures
        address == address_at(data@, offset as int),
{
    let field = slice_subrange(data, offset, offset + 32);
    let address = Address::from_slice(field).unwrap();
    proof {
        lemma_address_of(field@);
        address.lemma_view_injective(address_of(field@));
    }
    address
}

/// Appends the eight bytes of an integer.
pub(crate) fn put_u64(out: &mut Vec<u8>, value: u64)
    ensures
        final(out)@ == old(out)@ + encoded_u64(value),
{
    let mut bytes = write_u64(value).unwrap();
    out.append(&mut bytes);
}

/// Appends the byte of a flag.
pub(crate) fn put_bool(out: &mut Vec<u8>, flag: bool)
    ensures
        final(out)@ == old(out)@ + encoded_bool(flag),
{
    let mut bytes = write_bool(flag).unwrap();
    out.append(&mut bytes);
}

/// Appends the 32 bytes of an identifier.
pub(crate) fn put_address(out: &mut Vec<u8>, address: &Address)
    ensures
        final(out)@ == old(out)@ + address@,
{
    let mut bytes = address.to_vec();
    out.append(&mut bytes);
}

} // verus!
