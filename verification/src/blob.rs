use vstd::prelude::*;
use vstd::string::StringExecFns;
use crate::b64::b64_encode;
use crate::b64::encode_standard;

verus! {

/// Default content type of a fresh builder.
pub open spec fn default_content_type() -> Seq<char> {
    "application/octet-stream"@
}

/// Byte cap of a fresh builder: one MiB.
pub const MAX_BYTES_DEFAULT: u64 = 1048576;

/// Content type of a fresh builder.
pub const CONTENT_TYPE_DEFAULT: &'static str = "application/octet-stream";

/// Content encoding of a fresh builder.
pub const CONTENT_ENCODING_DEFAULT: &'static str = "";

/// No two of the pairs share a key: the sequence is a mapping.
pub open spec fn distinct_keys(pairs: Seq<(Seq<char>, Seq<char>)>) -> bool {
    forall|i: int, j: int| 0 <= i < j < pairs.len() ==> pairs[i].0 != pairs[j].0
}

/// The blob's metadata, when present, is a mapping: its keys are
/// pairwise distinct.
pub open spec fn blob_metadata_distinct(b: &Blob) -> bool {
    match b.metadata.deep_view() {
        None => true,
        Some(pairs) => distinct_keys(pairs),
    }
}

/// One encoded artifact, ready to be serialized.
#[derive(Debug)]
pub struct Blob {
    /// The name of the blob, e.g. "blob.dat".
    pub name: String,
    pub content_type: String,
    pub content_encoding: String,
    /// Always the literal "base64".
    pub content_transfer_encoding: String,
    /// Base64 encoded content (even if the content is human readable text).
    pub body: String,
    /// Present only when metadata was set on the builder that built this blob.
    pub metadata: Option<Vec<(String, String)>>,
}

/// Configuration from which blobs are built.
pub struct BlobBuilder {
    content_type: String,
    content_encoding: String,
    max_bytes: u64,
    metadata: Option<Vec<(String, String)>>,
}

impl BlobBuilder {
    /// The metadata a builder holds, when set, has pairwise-distinct keys;
    /// `with_metadata` demands that of its argument, and nothing else
    /// touches the mapping.
    #[verifier::type_invariant]
    spec fn inv(&self) -> bool {
        match self.metadata.deep_view() {
            None => true,
            Some(pairs) => distinct_keys(pairs),
        }
    }

    /// The content type every built blob will carry.
    pub closed spec fn content_type_spec(&self) -> Seq<char> {
        self.content_type@
    }

    /// The content encoding every built blob will carry.
    pub closed spec fn content_encoding_spec(&self) -> Seq<char> {
        self.content_encoding@
    }

    /// The cap on how many bytes a bounded read will consume.
    pub closed spec fn max_bytes_spec(&self) -> u64 {
        self.max_bytes
    }

    /// The metadata every built blob will carry, if any was set.
    pub closed spec fn metadata_spec(&self) -> Option<Seq<(Seq<char>, Seq<char>)>> {
        self.metadata.deep_view()
    }
}

/// The blob `b` is exactly what a builder configured as `cfg` yields
/// for the input bytes `data` under the name `name`.
pub open spec fn blob_matches(cfg: &BlobBuilder, data: Seq<u8>, name: Seq<char>, b: &Blob) -> bool {
    &&& b.name@ == name
    &&& b.content_type@ == cfg.content_type_spec()
    &&& b.content_encoding@ == cfg.content_encoding_spec()
    &&& b.content_transfer_encoding@ == "base64"@
    &&& b.body@ == b64_encode(data)
    &&& b.metadata.deep_view() == cfg.metadata_spec()
}

fn clone_metadata(m: &Option<Vec<(String, String)>>) -> (r: Option<Vec<(String, String)>>)
    ensures
        r.deep_view() == m.deep_view(),
{
    match m {
        None => None,
        Some(v) => {
            let mut out: Vec<(String, String)> = Vec::new();
            let mut i: usize = 0;
            while i < v.len()
                invariant
                    i <= v.len(),
                    out@.len() == i,
                    forall|j: int| 0 <= j < i ==> out.deep_view()[j] == v.deep_view()[j],
                decreases v.len() - i,
            {
                let pair = (v[i].0.clone(), v[i].1.clone());
                out.push(pair);
                i = i + 1;
            }
            proof {
                assert(out.deep_view() =~= v.deep_view());
            }
            Some(out)
        },
    }
}

impl Default for BlobBuilder {
    /// A builder with the documented defaults: octet-stream content type,
    /// empty content encoding, a one-MiB byte cap, and no metadata.
    fn default() -> (r: Self)
        ensures
            r.content_type_spec() == default_content_type(),
            r.content_encoding_spec() == Seq::<char>::empty(),
            r.max_bytes_spec() == MAX_BYTES_DEFAULT,
            r.metadata_spec() is None,
    {
        proof {
            reveal_strlit("");
        }
        Self {
            content_type: String::from_str(CONTENT_TYPE_DEFAULT),
            content_encoding: String::from_str(CONTENT_ENCODING_DEFAULT),
            max_bytes: MAX_BYTES_DEFAULT,
            metadata: None,
        }
    }
}

impl BlobBuilder {
    /// Replaces the content type; every other setting is kept.
    pub fn with_content_type(self, ctyp: String) -> (r: Self)
        ensures
            r.content_type_spec() == ctyp@,
            r.content_encoding_spec() == self.content_encoding_spec(),
            r.max_bytes_spec() == self.max_bytes_spec(),
            r.metadata_spec() == self.metadata_spec(),
    {
        proof {
            use_type_invariant(&self);
        }
        Self { content_type: ctyp, ..self }
    }

    /// Replaces the content encoding; every other setting is kept.
    pub fn with_content_encoding(self, enc: String) -> (r: Self)
        ensures
            r.content_encoding_spec() == enc@,
            r.content_type_spec() == self.content_type_spec(),
            r.max_bytes_spec() == self.max_bytes_spec(),
            r.metadata_spec() == self.metadata_spec(),
    {
        proof {
            use_type_invariant(&self);
        }
        Self { content_encoding: enc, ..self }
    }

    /// Replaces the byte cap; every other setting is kept. Any value is
    /// accepted, zero included.
    pub fn with_max_bytes(self, mb: u64) -> (r: Self)
        ensures
            r.max_bytes_spec() == mb,
            r.content_type_spec() == self.content_type_spec(),
            r.content_encoding_spec() == self.content_encoding_spec(),
            r.metadata_spec() == self.metadata_spec(),
    {
        proof {
            use_type_invariant(&self);
        }
        Self { max_bytes: mb, ..self }
    }

    /// Replaces the metadata wholesale with the given key-value pairs;
    /// every other setting is kept. The pairs must form a mapping: no two
    /// may share a key (`merge_key_vals` folds arbitrary pairs into one).
    pub fn with_metadata(self, metadata: Vec<(String, String)>) -> (r: Self)
        requires
            distinct_keys(metadata.deep_view()),
        ensures
            r.metadata_spec() == Some(metadata.deep_view()),
            r.content_type_spec() == self.content_type_spec(),
            r.content_encoding_spec() == self.content_encoding_spec(),
            r.max_bytes_spec() == self.max_bytes_spec(),
    {
        Self { metadata: Some(metadata), ..self }
    }

    /// The configured byte cap, for the bounded read.
    pub(crate) fn max_bytes_value(&self) -> (r: u64)
        ensures
            r == self.max_bytes_spec(),
    {
        self.max_bytes
    }

    /// Encodes the given bytes as standard base64 and wraps them, with the
    /// builder's configuration, into a new blob. The builder is only read:
    /// it can build any number of blobs.
    pub fn bytes2blob(&self, blob: &[u8], name: String) -> (r: Blob)
        requires
            (blob@.len() + 2) / 3 * 4 <= usize::MAX,
        ensures
            blob_matches(self, blob@, name@, &r),
            blob_metadata_distinct(&r),
    {
        proof {
            use_type_invariant(self);
        }
        let encoded: String = encode_standard(blob);
        Blob {
            name,
            content_type: self.content_type.clone(),
            content_encoding: self.content_encoding.clone(),
            content_transfer_encoding: String::from_str("base64"),
            body: encoded,
            metadata: clone_metadata(&self.metadata),
        }
    }
}

} // verus!
