use vstd::prelude::*;

use crate::ascii::{spec_text_html, spec_text_prefix, text_html, text_prefix};
use crate::util::{spec_starts_with, starts_with};

verus! {

/// The entry of the extension-to-type table for an extension, or the empty
/// sequence when the table has none.  Media type names are never empty, so
/// emptiness marks a miss.
pub uninterp spec fn mime_of(ext: Seq<u8>) -> Seq<u8>;

/// Relies on mime_guess::from_ext and its first entry: the guess is a pure
/// lookup in a static extension-to-type table, so the result depends on the
/// extension bytes alone.  An extension that is not valid UTF-8 has no table
/// entry.  The empty result stands for a miss.
#[verifier::external_body]
fn mime_lookup(ext: &Vec<u8>) -> (r: Vec<u8>)
    ensures
        r@ == mime_of(ext@),
{
    match std::str::from_utf8(ext.as_slice()) {
        Ok(e) => match mime_guess::from_ext(e).first() {
            Some(m) => m.to_string().into_bytes(),
            None => Vec::new(),
        },
        Err(_) => Vec::new(),
    }
}

/// The `Content-Type` owed to a file with extension `ext`: the table entry
/// when the table has one, and the configured default otherwise.
pub open spec fn spec_content_type(ext: Seq<u8>, default: Seq<u8>) -> Seq<u8> {
    if mime_of(ext).len() == 0 {
        default
    } else {
        mime_of(ext)
    }
}

/// Resolves the `Content-Type` for a file extension, falling back to the
/// configured default when the type table has no entry.
pub fn content_type_for(ext: &Vec<u8>, default: &Vec<u8>) -> (r: Vec<u8>)
    ensures
        r@ == spec_content_type(ext@, default@),
{
    let m = mime_lookup(ext);
    if m.len() == 0 {
        crate::paths::clone_bytes(default)
    } else {
        m
    }
}

/// Whether a media type is judged compressible: the textual types are, and
/// nothing else is.
pub open spec fn spec_compressible(content_type: Seq<u8>) -> bool {
    spec_starts_with(content_type, spec_text_prefix())
}

/// Judges whether a media type is worth compressing.
pub fn is_compressible(content_type: &Vec<u8>) -> (r: bool)
    ensures
        r <==> spec_compressible(content_type@),
{
    let p = text_prefix();
    starts_with(content_type, &p)
}

/// The default media type for content whose extension resolves to nothing.
pub fn default_content_type() -> (r: Vec<u8>)
    ensures
        r@ == spec_text_html(),
{
    text_html()
}

} // verus!
