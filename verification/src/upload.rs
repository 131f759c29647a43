//! Preparation of the upload payload.
//!
//! Once the sampler's report has been serialized to bytes, the loop must
//! compress those bytes and pair them with the session's identity before the
//! host can send them to the remote service.  Both the identity check and the
//! compression step are decided here; only the compressor itself is an
//! outside call.

use crate::control::GcpCloudProfilingError;
use crate::control::ProfileSession;
use std::io::Write;
use vstd::prelude::*;

verus! {

/// What a gzip stream decompresses to, if it is well-formed.  This names the
/// result of flate2's decoder, which is a function of the bytes alone.
pub uninterp spec fn gunzip_of(data: Seq<u8>) -> Option<Seq<u8>>;

/// Relies on flate2's `write::GzEncoder` with the default compression level:
/// the output is a gzip stream that decompresses back to exactly the input
/// bytes.  The encoder writes into a `Vec`, whose `Write` impl never errors,
/// so compression into memory cannot fail.
#[verifier::external_body]
fn gzip_compress(data: &Vec<u8>) -> (r: Vec<u8>)
    ensures
        gunzip_of(r@) == Some(data@),
{
    let mut encoder = flate2::write::GzEncoder::new(Vec::new(), flate2::Compression::default());
    encoder.write_all(data).expect("writing into a Vec cannot fail");
    encoder.finish().expect("writing into a Vec cannot fail")
}

/// A compressed artifact together with the session identity it must be
/// uploaded under.
#[derive(Debug)]
pub struct UploadPayload {
    pub name: String,
    pub compressed_bytes: Vec<u8>,
}

/// Builds the artifact for the upload stage: a session without an identity is
/// rejected, and any session with one yields a payload that carries that
/// identity and whose bytes decompress back to the serialized report.
pub fn prepare_upload(data: &Vec<u8>, session: &ProfileSession) -> (r: Result<
    UploadPayload,
    GcpCloudProfilingError,
>)
    ensures
        session.name is None <==> r is Err,
        r matches Err(e) ==> e is MissingSessionIdentity,
        session.name matches Some(n) ==> (r matches Ok(p) && p.name@ == n@ && gunzip_of(
            p.compressed_bytes@,
        ) == Some(data@)),
{
    match &session.name {
        None => Err(GcpCloudProfilingError::MissingSessionIdentity),
        Some(n) => Ok(UploadPayload { name: n.clone(), compressed_bytes: gzip_compress(data) }),
    }
}

} // verus!
