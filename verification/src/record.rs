//! The Account Record: the value stored inside a derived-address account,
//! with its well-formedness bound and its binary layout contract.

use vstd::prelude::*;

use crate::derivation::MAX_SEED_LEN;

verus! {

/// Longest caller-supplied payload a record accepts, in bytes.
pub const MAX_DATA_LEN: usize = 100;

/// Bytes the environment reserves in front of the record image when an
/// account is allocated (its record-type marker). Counted in the allocation
/// size only; never read or written by this library.
pub const METADATA_OVERHEAD: usize = 8;

/// Bytes an allocation must provide to hold the environment's reserved
/// metadata followed by the largest record image: one length byte and up to
/// [`MAX_SEED_LEN`] bytes of seed, one length byte and up to
/// [`MAX_DATA_LEN`] bytes of payload, and a 32-byte authority.
pub const RECORD_SPACE: usize = METADATA_OVERHEAD + 1 + MAX_SEED_LEN + 1 + MAX_DATA_LEN + 32;

/// The value persisted at a derived address: the seed that produced the
/// address, an opaque caller-supplied payload, and the identity of the
/// creator.
#[derive(Clone, Debug)]
pub struct DynamicPdaAccount {
    /// The derivation input that produced this account's address.
    pub seed: Vec<u8>,
    /// Caller-supplied opaque data.
    pub data: Vec<u8>,
    /// Identity of the entity that created the record.
    pub authority: [u8; 32],
}

impl DynamicPdaAccount {
    /// Both byte strings stay within their layout bounds.
    pub open spec fn wf(self) -> bool {
        self.seed@.len() <= MAX_SEED_LEN && self.data@.len() <= MAX_DATA_LEN
    }
}

/// The record's byte image: seed length, seed, payload length, payload,
/// authority. Meaningful for well-formed records, whose lengths fit one
/// byte each.
pub open spec fn record_bytes(rec: DynamicPdaAccount) -> Seq<u8> {
    seq![rec.seed@.len() as u8] + rec.seed@ + seq![rec.data@.len() as u8] + rec.data@
        + rec.authority@
}

/// Append every byte of `src` to `dst`.
pub fn push_bytes(dst: &mut Vec<u8>, src: &Vec<u8>)
    ensures
        final(dst)@ == old(dst)@ + src@,
{
    let mut i: usize = 0;
    proof {
        assert(dst@ =~= old(dst)@ + src@.subrange(0, 0));
    }
    while i < src.len()
        invariant
            i <= src@.len(),
            dst@ == old(dst)@ + src@.subrange(0, i as int),
        decreases src@.len() - i,
    {
        dst.push(src[i]);
        i = i + 1;
        proof {
            assert(dst@ =~= old(dst)@ + src@.subrange(0, i as int));
        }
    }
    proof {
        assert(src@.subrange(0, i as int) =~= src@);
    }
}

/// The shape every well-formed record's image has: its length counts both
/// byte strings plus the two length bytes and the authority, its first
/// byte is the seed length, and the byte after the seed is the payload
/// length.
pub proof fn lemma_image_shape(rec: DynamicPdaAccount)
    requires
        rec.wf(),
    ensures
        record_bytes(rec).len() == 2 + rec.seed@.len() + rec.data@.len() + 32,
        record_bytes(rec)[0] == rec.seed@.len() as u8,
        record_bytes(rec)[1 + rec.seed@.len() as int] == rec.data@.len() as u8,
{
    assert(record_bytes(rec)[0] == rec.seed@.len() as u8);
    assert(record_bytes(rec)[1 + rec.seed@.len() as int] == rec.data@.len() as u8);
}

/// The image pins the record: well-formed records with the same image hold
/// the same seed, payload and authority.
pub proof fn lemma_record_bytes_injective(a: DynamicPdaAccount, b: DynamicPdaAccount)
    requires
        a.wf(),
        b.wf(),
        record_bytes(a) == record_bytes(b),
    ensures
        a.seed@ == b.seed@,
        a.data@ == b.data@,
        a.authority@ == b.authority@,
{
    lemma_image_shape(a);
    lemma_image_shape(b);
    assert(a.seed@.len() == b.seed@.len());
    assert(a.data@.len() == b.data@.len());
    let n = a.seed@.len() as int;
    let m = a.data@.len() as int;
    assert(a.seed@ =~= b.seed@) by {
        assert forall|k: int| 0 <= k < n implies a.seed@[k] == b.seed@[k] by {
            assert(record_bytes(a)[1 + k] == a.seed@[k]);
            assert(record_bytes(b)[1 + k] == b.seed@[k]);
        }
    }
    assert(a.data@ =~= b.data@) by {
        assert forall|k: int| 0 <= k < m implies a.data@[k] == b.data@[k] by {
            assert(record_bytes(a)[2 + n + k] == a.data@[k]);
            assert(record_bytes(b)[2 + n + k] == b.data@[k]);
        }
    }
    assert(a.authority@ =~= b.authority@) by {
        assert forall|k: int| 0 <= k < 32 implies a.authority@[k] == b.authority@[k] by {
            assert(record_bytes(a)[2 + n + m + k] == a.authority@[k]);
            assert(record_bytes(b)[2 + n + m + k] == b.authority@[k]);
        }
    }
}

/// Serialize a record into its byte image.
pub fn encode_record(rec: &DynamicPdaAccount) -> (r: Vec<u8>)
    requires
        rec.wf(),
    ensures
        r@ == record_bytes(*rec),
{
    let mut out: Vec<u8> = Vec::new();
    out.push(rec.seed.len() as u8);
    push_bytes(&mut out, &rec.seed);
    out.push(rec.data.len() as u8);
    push_bytes(&mut out, &rec.data);
    let mut i: usize = 0;
    proof {
        assert(out@ =~= seq![rec.seed@.len() as u8] + rec.seed@ + seq![rec.data@.len() as u8]
            + rec.data@ + rec.authority@.subrange(0, 0));
    }
    while i < 32
        invariant
            i <= 32,
            out@ == seq![rec.seed@.len() as u8] + rec.seed@ + seq![rec.data@.len() as u8]
                + rec.data@ + rec.authority@.subrange(0, i as int),
        decreases 32 - i,
    {
        out.push(rec.authority[i]);
        i = i + 1;
        proof {
            assert(out@ =~= seq![rec.seed@.len() as u8] + rec.seed@ + seq![
                rec.data@.len() as u8,
            ] + rec.data@ + rec.authority@.subrange(0, i as int));
        }
    }
    proof {
        assert(rec.authority@.subrange(0, 32) =~= rec.authority@);
        assert(out@ =~= record_bytes(*rec));
    }
    out
}

/// Copy `len` bytes of `src` starting at `start`.
fn copy_range(src: &Vec<u8>, start: usize, len: usize) -> (r: Vec<u8>)
    requires
        start + len <= src@.len(),
    ensures
        r@ == src@.subrange(start as int, start as int + len as int),
{
    let mut out: Vec<u8> = Vec::new();
    let mut i: usize = 0;
    let src_len = src.len();
    proof {
        assert(out@ =~= src@.subrange(start as int, start as int));
    }
    while i < len
        invariant
            i <= len,
            start + len <= src_len,
            src_len == src@.len(),
            out@ == src@.subrange(start as int, start as int + i as int),
        decreases len - i,
    {
        out.push(src[start + i]);
        i = i + 1;
        proof {
            assert(out@ =~= src@.subrange(start as int, start as int + i as int));
        }
    }
    out
}

/// Parse a byte image back into the record it holds. Returns the record
/// exactly when some well-formed record has this image; otherwise the
/// bytes are not a record image at all.
pub fn decode_record(bytes: &Vec<u8>) -> (r: Option<DynamicPdaAccount>)
    ensures
        r matches Some(rec) ==> rec.wf() && record_bytes(rec) == bytes@,
        r is None ==> forall|rec: DynamicPdaAccount| rec.wf() ==> record_bytes(rec) != bytes@,
{
    if bytes.len() < 2 {
        proof {
            assert forall|rec: DynamicPdaAccount| rec.wf() implies record_bytes(rec)
                != bytes@ by {
                lemma_image_shape(rec);
            }
        }
        return None;
    }
    let s_len = bytes[0] as usize;
    if s_len > MAX_SEED_LEN || bytes.len() < 2 + s_len {
        proof {
            assert forall|rec: DynamicPdaAccount| rec.wf() implies record_bytes(rec)
                != bytes@ by {
                lemma_image_shape(rec);
                if record_bytes(rec) == bytes@ {
                    assert(rec.seed@.len() as u8 == bytes@[0]);
                    assert(rec.seed@.len() == s_len);
                }
            }
        }
        return None;
    }
    let d_len = bytes[1 + s_len] as usize;
    if d_len > MAX_DATA_LEN || bytes.len() != 2 + s_len + d_len + 32 {
        proof {
            assert forall|rec: DynamicPdaAccount| rec.wf() implies record_bytes(rec)
                != bytes@ by {
                lemma_image_shape(rec);
                if record_bytes(rec) == bytes@ {
                    assert(rec.seed@.len() as u8 == bytes@[0]);
                    assert(rec.seed@.len() == s_len);
                    assert(rec.data@.len() as u8 == bytes@[1 + s_len as int]);
                    assert(rec.data@.len() == d_len);
                }
            }
        }
        return None;
    }
    let seed = copy_range(bytes, 1, s_len);
    let data = copy_range(bytes, 2 + s_len, d_len);
    let mut authority = [0u8; 32];
    let mut i: usize = 0;
    while i < 32
        invariant
            i <= 32,
            s_len <= MAX_SEED_LEN,
            d_len <= MAX_DATA_LEN,
            bytes@.len() == 2 + s_len + d_len + 32,
            forall|k: int| 0 <= k < i ==> authority@[k] == bytes@[2 + s_len + d_len + k],
        decreases 32 - i,
    {
        authority[i] = bytes[2 + s_len + d_len + i];
        i = i + 1;
    }
    let rec = DynamicPdaAccount { seed, data, authority };
    proof {
        assert(record_bytes(rec) =~= bytes@);
    }
    Some(rec)
}

} // verus!
