use bitcoin::blockdata::opcodes;
use bitcoin::blockdata::script::{read_scriptint, Builder};
use vstd::prelude::*;
use vstd::slice::slice_subrange;

use crate::error::ScriptTreeError;

verus! {

/// OP_0, which pushes the number zero.
pub const OP_FALSE: u8 = 0x00;
/// OP_1NEGATE, which pushes the number minus one.
pub const OP_1NEGATE: u8 = 0x4f;
/// OP_1: OP_1 to OP_16 push the numbers one to sixteen.
pub const OP_1: u8 = 0x51;
/// OP_16.
pub const OP_16: u8 = 0x60;
/// OP_RETURN, which fails the script wherever it runs.
pub const OP_RETURN: u8 = 0x6a;
/// OP_DROP.
pub const OP_DROP: u8 = 0x75;
/// OP_CHECKLOCKTIMEVERIFY.
pub const OP_CLTV: u8 = 0xb1;
/// OP_CHECKSIG.
pub const OP_CHECKSIG: u8 = 0xac;
/// Largest unlock height that a four-byte script number holds.
pub const MAX_UNLOCK_HEIGHT: usize = 0x7fff_ffff;

/// Minimal little-endian script-number encoding of a positive number: the
/// magnitude's bytes, with one more zero byte where the top byte has its
/// sign bit set.
pub open spec fn scriptnum_bytes(n: nat) -> Seq<u8>
    decreases n,
{
    if n < 0x80 {
        seq![n as u8]
    } else if n < 0x100 {
        seq![n as u8, 0u8]
    } else {
        seq![(n % 0x100) as u8] + scriptnum_bytes(n / 0x100)
    }
}

/// The bytes that push the non-negative number `n`: OP_0 for zero, OP_1 to
/// OP_16 for one to sixteen, else a direct push of its script-number bytes.
pub open spec fn push_int_bytes(n: nat) -> Seq<u8> {
    if n == 0 {
        seq![OP_FALSE]
    } else if n <= 16 {
        seq![(0x50 + n) as u8]
    } else {
        seq![scriptnum_bytes(n).len() as u8] + scriptnum_bytes(n)
    }
}

/// The bytes that push `data` directly (under 76 bytes long).
pub open spec fn push_slice_bytes(data: Seq<u8>) -> Seq<u8> {
    seq![data.len() as u8] + data
}

/// The refund script: `<unlock_height> OP_CLTV OP_DROP <key> OP_CHECKSIG`.
pub open spec fn refund_script(key: Seq<u8>, unlock_height: nat) -> Seq<u8> {
    push_int_bytes(unlock_height) + seq![OP_CLTV, OP_DROP] + push_slice_bytes(key) + seq![
        OP_CHECKSIG,
    ]
}

/// The unspendable script: OP_RETURN alone.
pub open spec fn unspendable_script() -> Seq<u8> {
    seq![OP_RETURN]
}

/// The unsigned little-endian value of a byte sequence.
pub open spec fn le_value(s: Seq<u8>) -> nat
    decreases s.len(),
{
    if s.len() == 0 {
        0
    } else {
        s[0] as nat + 256 * le_value(s.drop_first())
    }
}

/// The value of a script number: little-endian magnitude, with the top bit of
/// the last byte as the sign.
pub open spec fn scriptnum_value(s: Seq<u8>) -> int {
    if s.len() == 0 {
        0
    } else if s.last() >= 0x80 {
        -(le_value(s.drop_last().push((s.last() - 0x80) as u8)) as int)
    } else {
        le_value(s) as int
    }
}

/// The number that the first instruction of a script pushes, where it pushes
/// one: a small-number opcode, or a direct push of at most four bytes.
pub open spec fn pushed_int(s: Seq<u8>) -> Option<int> {
    if s.len() == 0 {
        None
    } else if s[0] == OP_FALSE {
        Some(0)
    } else if s[0] == OP_1NEGATE {
        Some(-1)
    } else if OP_1 <= s[0] <= OP_16 {
        Some(s[0] - 0x50)
    } else if 1 <= s[0] <= 4 && s.len() >= 1 + s[0] {
        Some(scriptnum_value(s.subrange(1, 1 + s[0])))
    } else {
        None
    }
}

/// Relies on bitcoin's `Builder::push_opcode`: the opcode's byte is appended.
#[verifier::external_body]
fn push_opcode(script: Vec<u8>, op: u8) -> (r: Vec<u8>)
    ensures
        r@ == script@.push(op),
{
    Builder::from(script).push_opcode(opcodes::All::from(op)).into_script().into_bytes()
}

/// Relies on bitcoin's `Builder::push_int`: small numbers become their
/// opcode, others a push of their minimal script-number bytes.
#[verifier::external_body]
fn push_int(script: Vec<u8>, n: i64) -> (r: Vec<u8>)
    requires
        n >= 0,
    ensures
        r@ == script@ + push_int_bytes(n as nat),
{
    Builder::from(script).push_int(n).into_script().into_bytes()
}

/// Relies on bitcoin's `Builder::push_slice`: data under 76 bytes is
/// appended after one byte that gives its length.
#[verifier::external_body]
fn push_slice(script: Vec<u8>, data: &[u8]) -> (r: Vec<u8>)
    requires
        data@.len() < 76,
    ensures
        r@ == script@ + push_slice_bytes(data@),
{
    Builder::from(script).push_slice(data).into_script().into_bytes()
}

/// Relies on bitcoin's `read_scriptint`: at most four bytes are read as a
/// script number; longer input is refused.
#[verifier::external_body]
fn read_scriptnum(v: &[u8]) -> (r: Option<i64>)
    ensures
        v@.len() <= 4 ==> r is Some && r.unwrap() as int == scriptnum_value(v@),
        v@.len() > 4 ==> r is None,
{
    read_scriptint(v).ok()
}

/// The minimal encoding of a positive number reads back as that number, and
/// numbers below 2^31 take at most four bytes.
pub proof fn lemma_scriptnum_bytes(n: nat)
    requires
        n > 0,
    ensures
        scriptnum_bytes(n).len() >= 1,
        scriptnum_bytes(n).last() < 0x80,
        le_value(scriptnum_bytes(n)) == n,
        scriptnum_value(scriptnum_bytes(n)) == n,
        n < 0x8000 ==> scriptnum_bytes(n).len() <= 2,
        n < 0x80_0000 ==> scriptnum_bytes(n).len() <= 3,
        n < 0x8000_0000 ==> scriptnum_bytes(n).len() <= 4,
    decreases n,
{
    let s = scriptnum_bytes(n);
    if n < 0x80 {
        assert(le_value(s.drop_first()) == 0);
    } else if n < 0x100 {
        let z = seq![0u8];
        assert(s.drop_first() =~= z);
        assert(z.drop_first() =~= Seq::<u8>::empty());
        assert(le_value(Seq::<u8>::empty()) == 0);
        assert(le_value(z) == 0);
    } else {
        let t = scriptnum_bytes(n / 0x100);
        lemma_scriptnum_bytes(n / 0x100);
        assert(s.drop_first() =~= t);
        assert(s.last() == t.last());
    }
}

/// The first number that a refund script pushes is its unlock height.
pub proof fn lemma_refund_round_trip(key: Seq<u8>, unlock_height: nat)
    requires
        key.len() == 32,
        unlock_height <= MAX_UNLOCK_HEIGHT,
    ensures
        pushed_int(refund_script(key, unlock_height)) == Some(unlock_height as int),
{
    let s = refund_script(key, unlock_height);
    if unlock_height > 16 {
        let b = scriptnum_bytes(unlock_height);
        lemma_scriptnum_bytes(unlock_height);
        assert(s.subrange(1, 1 + s[0]) =~= b);
    }
}

/// Refund scripts for one key and two different unlock heights differ.
pub proof fn lemma_refund_height_sensitive(key: Seq<u8>, h1: nat, h2: nat)
    requires
        key.len() == 32,
        h1 <= MAX_UNLOCK_HEIGHT,
        h2 <= MAX_UNLOCK_HEIGHT,
        h1 != h2,
    ensures
        refund_script(key, h1) != refund_script(key, h2),
{
    lemma_refund_round_trip(key, h1);
    lemma_refund_round_trip(key, h2);
}

/// The script that only OP_RETURN makes up: no spend through it can succeed.
pub fn create_script_unspendable() -> (r: Vec<u8>)
    ensures
        r@ == unspendable_script(),
{
    push_opcode(Vec::new(), OP_RETURN)
}

/// The refund script that `user_public_key` can spend from block height (or
/// time) `unlock_block` on; a height past the four-byte script-number range
/// is refused.
pub fn create_script_refund(user_public_key: &[u8; 32], unlock_block: usize) -> (r: Result<
    Vec<u8>,
    ScriptTreeError,
>)
    ensures
        r is Err <==> unlock_block > MAX_UNLOCK_HEIGHT,
        r matches Err(e) ==> e == ScriptTreeError::Encoding,
        r matches Ok(s) ==> s@ == refund_script(user_public_key@, unlock_block as nat),
        r matches Ok(s) ==> pushed_int(s@) == Some(unlock_block as int),
{
    if unlock_block > MAX_UNLOCK_HEIGHT {
        return Err(ScriptTreeError::Encoding);
    }
    let s = push_int(Vec::new(), unlock_block as i64);
    let s = push_opcode(s, OP_CLTV);
    let s = push_opcode(s, OP_DROP);
    let s = push_slice(s, vstd::array::array_as_slice(user_public_key));
    let s = push_opcode(s, OP_CHECKSIG);
    proof {
        assert(s@ =~= refund_script(user_public_key@, unlock_block as nat));
        lemma_refund_round_trip(user_public_key@, unlock_block as nat);
    }
    Ok(s)
}

/// The number that the first instruction of `script` pushes, where it pushes
/// one that a script number of at most four bytes holds.
pub fn read_pushed_int(script: &Vec<u8>) -> (r: Option<i64>)
    ensures
        r is Some <==> pushed_int(script@) is Some,
        r matches Some(v) ==> v as int == pushed_int(script@).unwrap(),
{
    if script.len() == 0 {
        return None;
    }
    let op = script[0];
    if op == OP_FALSE {
        Some(0)
    } else if op == OP_1NEGATE {
        Some(-1)
    } else if OP_1 <= op && op <= OP_16 {
        Some(op as i64 - 0x50)
    } else if 1 <= op && op <= 4 && script.len() >= 1 + op as usize {
        let body = slice_subrange(script.as_slice(), 1, 1 + op as usize);
        read_scriptnum(body)
    } else {
        None
    }
}

} // verus!
