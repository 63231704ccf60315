//! Decompressing the gzip messages that some exchanges send.

use vstd::prelude::*;

verus! {

/// The text that gzip data decompresses to, as `flate2`'s `GzDecoder` reads it; none where
/// the data is not gzip or what it holds is not UTF-8 text.
pub uninterp spec fn gunzip_text(data: Seq<u8>) -> Option<Seq<char>>;

/// Trusted: `flate2::read::GzDecoder::new(data)` read to the end with `read_to_string`;
/// its error becomes `None`. Which text comes out is named, not stated.
#[verifier::external_body]
pub(crate) fn gunzip_to_string(data: &[u8]) -> (r: Option<String>)
    ensures
        match r {
            Some(t) => gunzip_text(data@) == Some(t@),
            None => gunzip_text(data@) is None,
        },
{
    let mut decoder = flate2::read::GzDecoder::new(data);
    let mut text = String::new();
    match std::io::Read::read_to_string(&mut decoder, &mut text) {
        Ok(_) => Some(text),
        Err(_) => None,
    }
}

} // verus!
