use vstd::prelude::*;

use std::io::Write;

verus! {

/// The gzip encoding of a byte sequence at the default compression level.
pub uninterp spec fn gzip_of(b: Seq<u8>) -> Seq<u8>;

/// Relies on flate2::write::GzEncoder at the default level with a Vec sink:
/// writing into a Vec cannot fail, so encoding always returns, and the
/// encoded bytes depend on the input alone (the header's time field is fixed
/// at zero and its system field at build time).
#[verifier::external_body]
pub(crate) fn gzip_bytes(data: &Vec<u8>) -> (r: Vec<u8>)
    ensures
        r@ == gzip_of(data@),
{
    let mut enc = flate2::write::GzEncoder::new(Vec::new(), flate2::Compression::default());
    enc.write_all(data.as_slice()).unwrap();
    enc.finish().unwrap()
}

} // verus!
