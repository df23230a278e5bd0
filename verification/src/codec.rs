//! The persisted layout of a deposit record, part of the wire contract for
//! any external reader: a fixed 8-byte header (a host convention) followed
//! by the 8-byte little-endian unsigned balance.

use vstd::prelude::*;
use crate::accounts::UserDeposit;
use crate::addr::dup_bytes;

verus! {

/// The eight bytes of a balance, little endian: byte `i` carries bits
/// `8*i` to `8*i + 7`.
pub open spec fn le_bytes(v: u64) -> Seq<u8> {
    seq![
        (v & 0xff) as u8,
        ((v >> 8) & 0xff) as u8,
        ((v >> 16) & 0xff) as u8,
        ((v >> 24) & 0xff) as u8,
        ((v >> 32) & 0xff) as u8,
        ((v >> 40) & 0xff) as u8,
        ((v >> 48) & 0xff) as u8,
        ((v >> 56) & 0xff) as u8,
    ]
}

/// Encode a balance as its eight little-endian bytes.
pub fn encode_balance(v: u64) -> (r: Vec<u8>)
    ensures
        r@ == le_bytes(v),
{
    let mut r: Vec<u8> = Vec::new();
    r.push((v & 0xff) as u8);
    r.push(((v >> 8) & 0xff) as u8);
    r.push(((v >> 16) & 0xff) as u8);
    r.push(((v >> 24) & 0xff) as u8);
    r.push(((v >> 32) & 0xff) as u8);
    r.push(((v >> 40) & 0xff) as u8);
    r.push(((v >> 48) & 0xff) as u8);
    r.push(((v >> 56) & 0xff) as u8);
    proof {
        assert(r@ =~= le_bytes(v));
    }
    r
}

/// Assemble a record's persisted bytes: the given 8-byte header, then the
/// balance, little endian; 16 bytes in all.
pub fn record_data(header: &Vec<u8>, record: &UserDeposit) -> (r: Vec<u8>)
    requires
        header@.len() == 8,
    ensures
        r@ == header@ + le_bytes(record.balance),
        r@.len() == 16,
{
    let mut r = dup_bytes(header);
    let mut tail = encode_balance(record.balance);
    r.append(&mut tail);
    proof {
        assert(r@ =~= header@ + le_bytes(record.balance));
    }
    r
}

/// Read the balance out of a record's persisted bytes. Exactly the 16-byte
/// layout is accepted; the header is skipped, the balance read back little
/// endian.
pub fn decode_record(data: &Vec<u8>) -> (r: Option<UserDeposit>)
    ensures
        match r {
            Some(record) => data@.len() == 16 && le_bytes(record.balance) == data@.subrange(8, 16),
            None => data@.len() != 16,
        },
{
    if data.len() != 16 {
        return None;
    }
    let b0 = data[8];
    let b1 = data[9];
    let b2 = data[10];
    let b3 = data[11];
    let b4 = data[12];
    let b5 = data[13];
    let b6 = data[14];
    let b7 = data[15];
    let v: u64 = (b0 as u64) | ((b1 as u64) << 8) | ((b2 as u64) << 16) | ((b3 as u64) << 24)
        | ((b4 as u64) << 32) | ((b5 as u64) << 40) | ((b6 as u64) << 48) | ((b7 as u64) << 56);
    proof {
        assert((v & 0xff) as u8 == b0 && ((v >> 8) & 0xff) as u8 == b1 && ((v >> 16) & 0xff) as u8
            == b2 && ((v >> 24) & 0xff) as u8 == b3 && ((v >> 32) & 0xff) as u8 == b4 && ((v >> 40)
            & 0xff) as u8 == b5 && ((v >> 48) & 0xff) as u8 == b6 && ((v >> 56) & 0xff) as u8 == b7)
            by (bit_vector)
            requires
                v == (b0 as u64) | ((b1 as u64) << 8) | ((b2 as u64) << 16) | ((b3 as u64) << 24)
                    | ((b4 as u64) << 32) | ((b5 as u64) << 40) | ((b6 as u64) << 48) | (
                (b7 as u64) << 56),
        ;
        assert(le_bytes(v) =~= data@.subrange(8, 16));
    }
    Some(UserDeposit { balance: v })
}

/// Two balances with the same little-endian bytes are the same balance.
pub proof fn lemma_le_bytes_injective(x: u64, y: u64)
    requires
        le_bytes(x) == le_bytes(y),
    ensures
        x == y,
{
    assert(le_bytes(x)[0] == le_bytes(y)[0]);
    assert(le_bytes(x)[1] == le_bytes(y)[1]);
    assert(le_bytes(x)[2] == le_bytes(y)[2]);
    assert(le_bytes(x)[3] == le_bytes(y)[3]);
    assert(le_bytes(x)[4] == le_bytes(y)[4]);
    assert(le_bytes(x)[5] == le_bytes(y)[5]);
    assert(le_bytes(x)[6] == le_bytes(y)[6]);
    assert(le_bytes(x)[7] == le_bytes(y)[7]);
    assert((x & 0xff) as u8 == (y & 0xff) as u8 && ((x >> 8) & 0xff) as u8 == ((y >> 8)
        & 0xff) as u8 && ((x >> 16) & 0xff) as u8 == ((y >> 16) & 0xff) as u8 && ((x >> 24)
        & 0xff) as u8 == ((y >> 24) & 0xff) as u8 && ((x >> 32) & 0xff) as u8 == ((y >> 32)
        & 0xff) as u8 && ((x >> 40) & 0xff) as u8 == ((y >> 40) & 0xff) as u8 && ((x >> 48)
        & 0xff) as u8 == ((y >> 48) & 0xff) as u8 && ((x >> 56) & 0xff) as u8 == ((y >> 56)
        & 0xff) as u8 ==> x == y) by (bit_vector);
}

/// Writing a record and reading it back gives the stored balance: the
/// persisted layout loses nothing.
pub proof fn lemma_record_round_trip(header: Seq<u8>, balance: u64, read_back: u64)
    requires
        header.len() == 8,
        le_bytes(read_back) == (header + le_bytes(balance)).subrange(8, 16),
    ensures
        read_back == balance,
{
    assert((header + le_bytes(balance)).subrange(8, 16) =~= le_bytes(balance));
    lemma_le_bytes_injective(read_back, balance);
}

} // verus!
