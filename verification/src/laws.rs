use vstd::prelude::*;
use crate::b64::b64_decode;
use crate::b64::lemma_b64_round_trip;
use crate::blob::Blob;
use crate::blob::BlobBuilder;
use crate::blob::blob_matches;
use crate::json::json_member;
use crate::json::json_of;
use crate::json::json_pairs;
use crate::json::json_string;
use crate::rdr::capped_blob;

verus! {

/// The five members every serialized blob opens with, in declared order.
pub open spec fn json_fixed_members(b: &Blob) -> Seq<char> {
    seq!['{'] + json_member("name"@, b.name@) + seq![','] + json_member(
        "content_type"@,
        b.content_type@,
    ) + seq![','] + json_member("content_encoding"@, b.content_encoding@) + seq![','] + json_member(
        "content_transfer_encoding"@,
        b.content_transfer_encoding@,
    ) + seq![','] + json_member("body"@, b.body@)
}

/// With no metadata set, the serialized object holds exactly the five fixed
/// members and closes right after the body: no metadata member is emitted.
pub proof fn lemma_no_metadata_member(b: &Blob)
    requires
        b.metadata is None,
    ensures
        json_of(b) == json_fixed_members(b) + seq!['}'],
{
}

/// With metadata set, the serialized object holds exactly one member more:
/// a metadata object carrying the given pairs, in their given order.
pub proof fn lemma_metadata_member_present(b: &Blob, pairs: Seq<(Seq<char>, Seq<char>)>)
    requires
        b.metadata.deep_view() == Some(pairs),
    ensures
        json_of(b) == json_fixed_members(b) + seq![','] + json_string("metadata"@) + seq![':', '{']
            + json_pairs(pairs) + seq!['}', '}'],
{
}

/// The bytes a bounded read consumes from a source holding `src`: the whole
/// source when it fits under the cap, else its first `cap` bytes.
pub open spec fn bounded_prefix(src: Seq<u8>, cap: u64) -> Seq<u8> {
    if src.len() <= cap {
        src
    } else {
        src.take(cap as int)
    }
}

/// The two blobs describe the same artifact: every field of one reads as
/// the same field of the other.
pub open spec fn blob_view_eq(b1: &Blob, b2: &Blob) -> bool {
    &&& b1.name@ == b2.name@
    &&& b1.content_type@ == b2.content_type@
    &&& b1.content_encoding@ == b2.content_encoding@
    &&& b1.content_transfer_encoding@ == b2.content_transfer_encoding@
    &&& b1.body@ == b2.body@
    &&& b1.metadata.deep_view() == b2.metadata.deep_view()
}

/// A built blob's body decodes, as standard base64, back to exactly the
/// bytes it was built from, whatever the builder's configuration and the
/// blob's name.
pub proof fn lemma_body_round_trip(cfg: &BlobBuilder, data: Seq<u8>, name: Seq<char>, b: &Blob)
    requires
        blob_matches(cfg, data, name, b),
    ensures
        b64_decode(b.body@) == data,
{
    lemma_b64_round_trip(data);
}

/// A source that fits under the byte cap is consumed whole: the blob built
/// from the bounded read of a source holding `src` reads, field for field,
/// as the blob built from `src` directly.
pub proof fn lemma_short_source_same_blob(
    cfg: &BlobBuilder,
    src: Seq<u8>,
    name: Seq<char>,
    from_rdr: &Blob,
    from_bytes: &Blob,
)
    requires
        src.len() <= cfg.max_bytes_spec(),
        blob_matches(cfg, bounded_prefix(src, cfg.max_bytes_spec()), name, from_rdr),
        blob_matches(cfg, src, name, from_bytes),
    ensures
        blob_view_eq(from_rdr, from_bytes),
{
}

/// A source longer than the byte cap is truncated silently: the body of the
/// blob built from its bounded read decodes to exactly the first
/// `max_bytes` bytes of the source.
pub proof fn lemma_long_source_truncated(cfg: &BlobBuilder, src: Seq<u8>, name: Seq<char>, b: &Blob)
    requires
        src.len() > cfg.max_bytes_spec(),
        blob_matches(cfg, bounded_prefix(src, cfg.max_bytes_spec()), name, b),
    ensures
        b64_decode(b.body@) == src.take(cfg.max_bytes_spec() as int),
{
    lemma_b64_round_trip(src.take(cfg.max_bytes_spec() as int));
}

/// Under a byte cap of zero every blob a bounded read yields carries an
/// empty body, whatever the source held.
pub proof fn lemma_zero_cap_empty_body(cfg: &BlobBuilder, name: Seq<char>, b: &Blob)
    requires
        cfg.max_bytes_spec() == 0,
        capped_blob(cfg, name, b),
    ensures
        b.body@ == Seq::<char>::empty(),
{
    let data = choose|data: Seq<u8>|
        data.len() <= cfg.max_bytes_spec() && blob_matches(cfg, data, name, b);
    assert(data =~= Seq::<u8>::empty());
    assert(b.body@ == crate::b64::b64_encode(data));
}

} // verus!
