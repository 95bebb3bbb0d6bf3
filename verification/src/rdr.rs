use vstd::prelude::*;
use crate::b64::b64_encode;
use crate::blob::Blob;
use crate::blob::BlobBuilder;
use crate::blob::blob_matches;

verus! {

/// Declares std::io::Error, so that a failed read can be handed back to the
/// caller as the error the source produced.
#[verifier::external_type_specification]
#[verifier::external_body]
pub struct ExIoError(std::io::Error);

/// The blob `b` was built, under the name `name`, from some byte sequence
/// no longer than the builder's cap.
pub open spec fn capped_blob(cfg: &BlobBuilder, name: Seq<char>, b: &Blob) -> bool {
    exists|data: Seq<u8>|
        data.len() <= cfg.max_bytes_spec() && blob_matches(cfg, data, name, b)
}

/// Relies on std::io::Read::read: a successful read places `n` bytes at the
/// start of the buffer and returns `n`, which never exceeds the buffer's
/// length; the buffer's length itself does not change.
#[verifier::external_body]
fn read_chunk<R: std::io::BufRead>(rdr: &mut R, buf: &mut Vec<u8>) -> (r: Result<
    usize,
    std::io::Error,
>)
    ensures
        final(buf)@.len() == old(buf)@.len(),
        r matches Ok(n) ==> n <= final(buf)@.len(),
{
    std::io::Read::read(rdr, buf.as_mut_slice())
}

/// Relies on std::io::Error::new: builds the error reported when the bytes
/// read cannot be base64-encoded within this machine's address space.
#[verifier::external_body]
fn oversize_error() -> std::io::Error {
    std::io::Error::new(std::io::ErrorKind::Other, "input too large to encode")
}

fn zero_vec(n: usize) -> (r: Vec<u8>)
    ensures
        r@.len() == n,
{
    let mut v: Vec<u8> = Vec::new();
    while v.len() < n
        invariant
            v@.len() <= n,
        decreases n - v@.len(),
    {
        v.push(0);
    }
    v
}

impl BlobBuilder {
    /// Reads from the source until it is exhausted or the builder's byte cap
    /// is reached, whichever comes first, never holding more than the cap in
    /// memory, and wraps whatever was read into a blob. A read failure is
    /// handed back to the caller; the builder stays usable. An `Err` can also
    /// arise, before any encoding, when the bytes read could not be
    /// base64-encoded within this machine's address space; on a real machine
    /// no source can deliver that much. The loop requests no byte past the
    /// cap, so a source holding `src` whose reads follow std's contract
    /// yields `bounded_prefix(src, cap)`; that tie is exercised by tests,
    /// not verified, and the lemmas beside that spec function state what the
    /// blob then holds.
    pub fn rdr2blob<R: std::io::BufRead>(&self, rdr: R, name: String) -> (r: Result<
        Blob,
        std::io::Error,
    >)
        ensures
            r matches Ok(b) ==> capped_blob(self, name@, &b),
            r matches Ok(b) ==> b.name@ == name@ && b.content_type@ == self.content_type_spec()
                && b.content_encoding@ == self.content_encoding_spec()
                && b.content_transfer_encoding@ == "base64"@ && b.metadata.deep_view()
                == self.metadata_spec(),
            r matches Ok(b) ==> crate::b64::b64_decode(b.body@).len() <= self.max_bytes_spec(),
            r matches Ok(b) ==> crate::blob::blob_metadata_distinct(&b),
            self.max_bytes_spec() == 0 ==> r is Ok,
            self.max_bytes_spec() == 0 ==> (r matches Ok(b) ==> b.body@ == Seq::<char>::empty()),
    {
        let mut rdr = rdr;
        let mut out: Vec<u8> = Vec::new();
        loop
            invariant
                out@.len() <= self.max_bytes_spec(),
            decreases self.max_bytes_spec() - out@.len(),
        {
            let got: u64 = out.len() as u64;
            let remaining: u64 = self.max_bytes_value() - got;
            if remaining == 0 {
                break ;
            }
            let want: usize = if remaining < 8192 {
                remaining as usize
            } else {
                8192
            };
            let mut chunk: Vec<u8> = zero_vec(want);
            match read_chunk(&mut rdr, &mut chunk) {
                Err(e) => {
                    return Err(e);
                },
                Ok(n) => {
                    if n == 0 {
                        break ;
                    }
                    let mut i: usize = 0;
                    while i < n
                        invariant
                            i <= n,
                            n <= chunk@.len(),
                            chunk@.len() == want,
                            want <= remaining,
                            out@.len() == got + i,
                            got + remaining == self.max_bytes_spec(),
                        decreases n - i,
                    {
                        out.push(chunk[i]);
                        i = i + 1;
                    }
                },
            }
        }
        if out.len() <= usize::MAX / 4 * 3 {
            proof {
                lemma_encodable(out@.len() as int);
            }
            let b = self.bytes2blob(out.as_slice(), name);
            proof {
                let data = out@;
                assert(data.len() <= self.max_bytes_spec());
                assert(blob_matches(self, data, name@, &b));
                crate::b64::lemma_b64_round_trip(data);
                if self.max_bytes_spec() == 0 {
                    assert(data.len() == 0);
                    assert(data =~= Seq::<u8>::empty());
                    assert(b64_encode(data).len() == 0);
                    assert(b.body@ =~= Seq::<char>::empty());
                }
            }
            Ok(b)
        } else {
            Err(oversize_error())
        }
    }
}

proof fn lemma_encodable(n: int)
    requires
        0 <= n <= usize::MAX / 4 * 3,
    ensures
        (n + 2) / 3 * 4 <= usize::MAX,
{
    let k = usize::MAX as int / 4;
    assert((n + 2) / 3 <= k) by (nonlinear_arith)
        requires
            0 <= n <= k * 3,
            k >= 0,
    ;
    assert((n + 2) / 3 * 4 <= k * 4) by (nonlinear_arith)
        requires
            (n + 2) / 3 <= k,
            0 <= n,
    ;
}

} // verus!
