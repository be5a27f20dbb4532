use vstd::prelude::*;
use vstd::utf8::encode_utf8;

verus! {

/// Where the folding of a name starts.
pub const KEY_OFFSET: u64 = 0xcbf2_9ce4_8422_2325;

/// What each folded byte is multiplied by.
pub const KEY_PRIME: u64 = 0x0000_0100_0000_01b3;

/// The bytes folded into one number, first to last: each byte is mixed into
/// the low bits of what came before, and the whole is multiplied on.
pub open spec fn fold_bytes(bytes: Seq<u8>) -> u64
    decreases bytes.len(),
{
    if bytes.len() == 0 {
        KEY_OFFSET
    } else {
        (fold_bytes(bytes.drop_last()) ^ (bytes.last() as u64)).wrapping_mul(KEY_PRIME)
    }
}

/// The key under which the instance `name` is registered: the bytes of the
/// name, folded.
pub open spec fn name_key(name: Seq<char>) -> u64 {
    fold_bytes(encode_utf8(name))
}

/// Computes the key under which the instance `name` is registered.
pub fn instance_key(name: &str) -> (key: u64)
    ensures
        key == name_key(name@),
{
    let bytes = name.as_bytes();
    let mut key: u64 = KEY_OFFSET;
    let mut i: usize = 0;
    while i < bytes.len()
        invariant
            i <= bytes.len(),
            key == fold_bytes(bytes@.take(i as int)),
        decreases bytes.len() - i,
    {
        proof {
            assert(bytes@.take(i + 1).drop_last() =~= bytes@.take(i as int));
            assert(bytes@.take(i + 1).last() == bytes@[i as int]);
        }
        key = (key ^ (bytes[i] as u64)).wrapping_mul(KEY_PRIME);
        i += 1;
    }
    proof {
        assert(bytes@.take(i as int) =~= bytes@);
    }
    key
}

} // verus!
