//! Font data: the bytes of a font file and the face used from it.

use vstd::prelude::*;

verus! {

/// The bytes of a font file and the index of the face used from it; the
/// face was found to parse.
pub struct FontData {
    pub data: Vec<u8>,
    pub face_index: u32,
}

/// Whether `rustybuzz` finds a font face at `face_index` in `data`.
pub uninterp spec fn font_face_parses(data: Seq<u8>, face_index: u32) -> bool;

/// Trusted: `rustybuzz::Face::from_slice`, which parses the font tables of
/// face `face_index` in `data` and gives `Some` when they parse. Only whether
/// it does is taken; it depends on the bytes and the index alone.
#[verifier::external_body]
fn face_from_slice_is_some(data: &[u8], face_index: u32) -> (r: bool)
    ensures
        r == font_face_parses(data@, face_index),
{
    rustybuzz::Face::from_slice(data, face_index).is_some()
}

/// Keep the font file `data` when face `face_index` of it parses.
pub fn parse_font(data: Vec<u8>, face_index: u32) -> (r: Option<FontData>)
    ensures
        r is Some <==> font_face_parses(data@, face_index),
        r matches Some(f) ==> f.data@ == data@ && f.face_index == face_index,
{
    if face_from_slice_is_some(data.as_slice(), face_index) {
        Some(FontData { data, face_index })
    } else {
        None
    }
}

} // verus!
