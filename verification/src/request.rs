//! Request-frame builders: each command's outgoing line (and payload, for
//! stores) as an owned byte vector, specified byte for byte.

use vstd::prelude::*;
use crate::text::{CR, LF, SPACE, dec_digits, dec_int, i64_to_dec, u64_to_dec};

verus! {

/// The line terminator.
pub open spec fn crlf() -> Seq<u8> {
    seq![CR, LF]
}

/// A single token separator.
pub open spec fn sp() -> Seq<u8> {
    seq![SPACE]
}

/// The bytes of `get `.
pub open spec fn verb_get_sp() -> Seq<u8> {
    seq![103u8, 101u8, 116u8, SPACE]
}

/// The bytes of `set `.
pub open spec fn verb_set_sp() -> Seq<u8> {
    seq![115u8, 101u8, 116u8, SPACE]
}

/// The bytes of `add `.
pub open spec fn verb_add_sp() -> Seq<u8> {
    seq![97u8, 100u8, 100u8, SPACE]
}

/// The bytes of `delete `.
pub open spec fn verb_delete_sp() -> Seq<u8> {
    seq![100u8, 101u8, 108u8, 101u8, 116u8, 101u8, SPACE]
}

/// The bytes of `incr `.
pub open spec fn verb_incr_sp() -> Seq<u8> {
    seq![105u8, 110u8, 99u8, 114u8, SPACE]
}

/// The bytes of `decr `.
pub open spec fn verb_decr_sp() -> Seq<u8> {
    seq![100u8, 101u8, 99u8, 114u8, SPACE]
}

/// The bytes of ` noreply`.
pub open spec fn noreply_tail() -> Seq<u8> {
    seq![SPACE, 110u8, 111u8, 114u8, 101u8, 112u8, 108u8, 121u8]
}

/// The bytes of `version\r\n`.
pub open spec fn version_frame() -> Seq<u8> {
    seq![118u8, 101u8, 114u8, 115u8, 105u8, 111u8, 110u8, CR, LF]
}

/// The bytes of `stats\r\n`.
pub open spec fn stats_frame() -> Seq<u8> {
    seq![115u8, 116u8, 97u8, 116u8, 115u8, CR, LF]
}

/// The bytes of `lru_crawler metadump all\r\n`.
pub open spec fn metadump_frame() -> Seq<u8> {
    seq![
        108u8,
        114u8,
        117u8,
        95u8,
        99u8,
        114u8,
        97u8,
        119u8,
        108u8,
        101u8,
        114u8,
        SPACE,
        109u8,
        101u8,
        116u8,
        97u8,
        100u8,
        117u8,
        109u8,
        112u8,
        SPACE,
        97u8,
        108u8,
        108u8,
        CR,
        LF,
    ]
}

/// The two store verbs that share one frame shape.
#[derive(Clone, Copy, Debug, PartialEq, Eq)]
pub enum StoreVerb {
    /// Store unconditionally.
    SetCommand,
    /// Store only when the key does not exist yet.
    AddCommand,
}

/// The verb token of a store frame, trailing separator included.
pub open spec fn store_verb_bytes(v: StoreVerb) -> Seq<u8> {
    match v {
        StoreVerb::SetCommand => verb_set_sp(),
        StoreVerb::AddCommand => verb_add_sp(),
    }
}

/// The frame of a single-key retrieval: `get <key>\r\n`.
pub open spec fn get_frame(key: Seq<u8>) -> Seq<u8> {
    verb_get_sp() + key + crlf()
}

/// Each key followed by one separator, in order.
pub open spec fn keys_sp(keys: Seq<Seq<u8>>) -> Seq<u8>
    decreases keys.len(),
{
    if keys.len() == 0 {
        Seq::empty()
    } else {
        keys.first() + sp() + keys_sp(keys.drop_first())
    }
}

/// Appending one more key extends the rendered key list at its end.
pub proof fn lemma_keys_sp_push(keys: Seq<Seq<u8>>, key: Seq<u8>)
    ensures
        keys_sp(keys.push(key)) == keys_sp(keys) + key + sp(),
    decreases keys.len(),
{
    let p = keys.push(key);
    if keys.len() == 0 {
        assert(p.first() == key);
        assert(p.drop_first() =~= Seq::<Seq<u8>>::empty());
        assert(keys_sp(p) == p.first() + sp() + keys_sp(p.drop_first()));
        assert(keys_sp(p) =~= keys_sp(keys) + key + sp());
    } else {
        assert(p.first() == keys.first());
        assert(p.drop_first() =~= keys.drop_first().push(key));
        lemma_keys_sp_push(keys.drop_first(), key);
        assert(keys_sp(p) == p.first() + sp() + keys_sp(p.drop_first()));
        assert(keys_sp(p) =~= keys_sp(keys) + key + sp());
    }
}

/// The frame of a multi-key retrieval: `get <key> [<key> ]...\r\n`, each key
/// followed by one separator.
pub open spec fn get_multi_frame(keys: Seq<Seq<u8>>) -> Seq<u8> {
    verb_get_sp() + keys_sp(keys) + crlf()
}

/// The frame of a store:
/// `<verb> <key> <flags> <ttl> <bytes>[ noreply]\r\n<payload>\r\n`.
pub open spec fn store_frame(
    verb: StoreVerb,
    key: Seq<u8>,
    payload: Seq<u8>,
    ttl: i64,
    flags: u32,
    noreply: bool,
) -> Seq<u8> {
    store_verb_bytes(verb) + key + sp() + dec_digits(flags as int) + sp() + dec_int(ttl as int)
        + sp() + dec_digits(payload.len() as int) + (if noreply {
        noreply_tail()
    } else {
        Seq::empty()
    }) + crlf() + payload + crlf()
}

/// The frame of an arithmetic command: `incr|decr <key> <amount>[ noreply]\r\n`.
pub open spec fn arith_frame(decrement: bool, key: Seq<u8>, amount: u64, noreply: bool) -> Seq<
    u8,
> {
    (if decrement {
        verb_decr_sp()
    } else {
        verb_incr_sp()
    }) + key + sp() + dec_digits(amount as int) + (if noreply {
        noreply_tail()
    } else {
        Seq::empty()
    }) + crlf()
}

/// The frame of a delete: `delete <key>[ noreply]\r\n`.
pub open spec fn delete_frame(key: Seq<u8>, noreply: bool) -> Seq<u8> {
    verb_delete_sp() + key + (if noreply {
        noreply_tail()
    } else {
        Seq::empty()
    }) + crlf()
}

/// Appends every byte of `bytes` to `out`.
fn push_bytes(out: &mut Vec<u8>, bytes: &[u8])
    ensures
        final(out)@ == old(out)@ + bytes@,
{
    let mut i: usize = 0;
    while i < bytes.len()
        invariant
            0 <= i <= bytes@.len(),
            out@ == old(out)@ + bytes@.take(i as int),
        decreases bytes@.len() - i,
    {
        let b = bytes[i];
        out.push(b);
        i = i + 1;
        proof {
            assert(out@ =~= old(out)@ + bytes@.take(i as int));
        }
    }
    proof {
        assert(bytes@.take(bytes@.len() as int) =~= bytes@);
    }
}

/// Appends a CRLF pair to `out`.
fn push_crlf(out: &mut Vec<u8>)
    ensures
        final(out)@ == old(out)@ + crlf(),
{
    out.push(CR);
    out.push(LF);
    proof {
        assert(out@ =~= old(out)@ + crlf());
    }
}

/// Appends one separator to `out`.
fn push_sp(out: &mut Vec<u8>)
    ensures
        final(out)@ == old(out)@ + sp(),
{
    out.push(SPACE);
    proof {
        assert(out@ =~= old(out)@ + sp());
    }
}

/// Appends the ` noreply` tail to `out`.
fn push_noreply(out: &mut Vec<u8>)
    ensures
        final(out)@ == old(out)@ + noreply_tail(),
{
    let tail: [u8; 8] = [SPACE, 110, 111, 114, 101, 112, 108, 121];
    push_bytes(out, tail.as_slice());
    proof {
        assert(tail@ =~= noreply_tail());
    }
}

/// Builds the frame of a single-key retrieval.
pub fn build_get_frame(key: &[u8]) -> (r: Vec<u8>)
    ensures
        r@ == get_frame(key@),
{
    let mut out: Vec<u8> = Vec::new();
    let verb: [u8; 4] = [103, 101, 116, SPACE];
    push_bytes(&mut out, verb.as_slice());
    push_bytes(&mut out, key);
    push_crlf(&mut out);
    proof {
        assert(verb@ =~= verb_get_sp());
        assert(out@ =~= get_frame(key@));
    }
    out
}

/// Builds the frame of a multi-key retrieval over the keys in order.
pub fn build_get_multi_frame(keys: &Vec<Vec<u8>>) -> (r: Vec<u8>)
    ensures
        r@ == get_multi_frame(keys@.map(|_i: int, k: Vec<u8>| k@)),
{
    let ghost key_views = keys@.map(|_i: int, k: Vec<u8>| k@);
    let mut out: Vec<u8> = Vec::new();
    let verb: [u8; 4] = [103, 101, 116, SPACE];
    push_bytes(&mut out, verb.as_slice());
    proof {
        assert(verb@ =~= verb_get_sp());
    }
    let mut i: usize = 0;
    while i < keys.len()
        invariant
            0 <= i <= keys@.len(),
            key_views == keys@.map(|_i: int, k: Vec<u8>| k@),
            out@ == verb_get_sp() + keys_sp(key_views.take(i as int)),
        decreases keys@.len() - i,
    {
        push_bytes(&mut out, keys[i].as_slice());
        push_sp(&mut out);
        proof {
            lemma_keys_sp_push(key_views.take(i as int), key_views[i as int]);
            assert(key_views.take(i + 1).drop_last() =~= key_views.take(i as int));
            assert(key_views.take(i + 1) =~= key_views.take(i as int).push(key_views[i as int]));
            assert(out@ =~= verb_get_sp() + keys_sp(key_views.take(i + 1)));
        }
        i = i + 1;
    }
    push_crlf(&mut out);
    proof {
        assert(key_views.take(key_views.len() as int) =~= key_views);
        assert(out@ =~= get_multi_frame(key_views));
    }
    out
}

/// Builds the frame of a store command; an unspecified time-to-live or flags
/// field defaults to zero.
pub fn build_store_frame(
    verb: StoreVerb,
    key: &[u8],
    payload: &[u8],
    ttl: Option<i64>,
    flags: Option<u32>,
    noreply: bool,
) -> (r: Vec<u8>)
    ensures
        r@ == store_frame(
            verb,
            key@,
            payload@,
            (match ttl {
                Some(t) => t,
                None => 0,
            }),
            (match flags {
                Some(f) => f,
                None => 0,
            }),
            noreply,
        ),
{
    let ttl_v: i64 = match ttl {
        Some(t) => t,
        None => 0,
    };
    let flags_v: u32 = match flags {
        Some(f) => f,
        None => 0,
    };
    let mut out: Vec<u8> = Vec::new();
    match verb {
        StoreVerb::SetCommand => {
            let v: [u8; 4] = [115, 101, 116, SPACE];
            push_bytes(&mut out, v.as_slice());
            proof {
                assert(v@ =~= verb_set_sp());
            }
        },
        StoreVerb::AddCommand => {
            let v: [u8; 4] = [97, 100, 100, SPACE];
            push_bytes(&mut out, v.as_slice());
            proof {
                assert(v@ =~= verb_add_sp());
            }
        },
    }
    push_bytes(&mut out, key);
    push_sp(&mut out);
    let flags_dec = u64_to_dec(flags_v as u64);
    push_bytes(&mut out, flags_dec.as_slice());
    push_sp(&mut out);
    let ttl_dec = i64_to_dec(ttl_v);
    push_bytes(&mut out, ttl_dec.as_slice());
    push_sp(&mut out);
    let len_dec = u64_to_dec(payload.len() as u64);
    push_bytes(&mut out, len_dec.as_slice());
    if noreply {
        push_noreply(&mut out);
    }
    push_crlf(&mut out);
    push_bytes(&mut out, payload);
    push_crlf(&mut out);
    proof {
        assert(out@ =~= store_frame(verb, key@, payload@, ttl_v, flags_v, noreply));
    }
    out
}

/// Builds the frame of an arithmetic command.
pub fn build_arith_frame(decrement: bool, key: &[u8], amount: u64, noreply: bool) -> (r: Vec<u8>)
    ensures
        r@ == arith_frame(decrement, key@, amount, noreply),
{
    let mut out: Vec<u8> = Vec::new();
    if decrement {
        let v: [u8; 5] = [100, 101, 99, 114, SPACE];
        push_bytes(&mut out, v.as_slice());
        proof {
            assert(v@ =~= verb_decr_sp());
        }
    } else {
        let v: [u8; 5] = [105, 110, 99, 114, SPACE];
        push_bytes(&mut out, v.as_slice());
        proof {
            assert(v@ =~= verb_incr_sp());
        }
    }
    push_bytes(&mut out, key);
    push_sp(&mut out);
    let amount_dec = u64_to_dec(amount);
    push_bytes(&mut out, amount_dec.as_slice());
    if noreply {
        push_noreply(&mut out);
    }
    push_crlf(&mut out);
    proof {
        assert(out@ =~= arith_frame(decrement, key@, amount, noreply));
    }
    out
}

/// Builds the frame of a delete command.
pub fn build_delete_frame(key: &[u8], noreply: bool) -> (r: Vec<u8>)
    ensures
        r@ == delete_frame(key@, noreply),
{
    let mut out: Vec<u8> = Vec::new();
    let v: [u8; 7] = [100, 101, 108, 101, 116, 101, SPACE];
    push_bytes(&mut out, v.as_slice());
    proof {
        assert(v@ =~= verb_delete_sp());
    }
    push_bytes(&mut out, key);
    if noreply {
        push_noreply(&mut out);
    }
    push_crlf(&mut out);
    proof {
        assert(out@ =~= delete_frame(key@, noreply));
    }
    out
}

/// Builds the frame of the version command.
pub fn build_version_frame() -> (r: Vec<u8>)
    ensures
        r@ == version_frame(),
{
    let v: [u8; 9] = [118, 101, 114, 115, 105, 111, 110, CR, LF];
    let mut out: Vec<u8> = Vec::new();
    push_bytes(&mut out, v.as_slice());
    proof {
        assert(out@ =~= version_frame());
    }
    out
}

/// Builds the frame of the statistics command.
pub fn build_stats_frame() -> (r: Vec<u8>)
    ensures
        r@ == stats_frame(),
{
    let v: [u8; 7] = [115, 116, 97, 116, 115, CR, LF];
    let mut out: Vec<u8> = Vec::new();
    push_bytes(&mut out, v.as_slice());
    proof {
        assert(out@ =~= stats_frame());
    }
    out
}

/// Builds the frame of the metadump command.
pub fn build_metadump_frame() -> (r: Vec<u8>)
    ensures
        r@ == metadump_frame(),
{
    let v: [u8; 26] = [
        108,
        114,
        117,
        95,
        99,
        114,
        97,
        119,
        108,
        101,
        114,
        SPACE,
        109,
        101,
        116,
        97,
        100,
        117,
        109,
        112,
        SPACE,
        97,
        108,
        108,
        CR,
        LF,
    ];
    let mut out: Vec<u8> = Vec::new();
    push_bytes(&mut out, v.as_slice());
    proof {
        assert(out@ =~= metadump_frame());
    }
    out
}

} // verus!
