//! Colours: reading a CSS colour string, and laying a colour out as the
//! compositor wants it.

use vstd::prelude::*;

verus! {

/// The colour that the `csscolorparser` crate reads out of `text`, as its red,
/// green, blue and alpha bytes, or `None` where it reads no colour.
pub uninterp spec fn css_rgba8(text: Seq<char>) -> Option<[u8; 4]>;

/// Calls `csscolorparser::parse` on `text` and, where that yields a colour,
/// `Color::to_rgba8` on the colour. Trusted: the result is the one that
/// [`css_rgba8`] names, which claims only that the crate reads the same text
/// the same way every time. Neither call panics.
#[verifier::external_body]
pub(crate) fn parse_css(text: &str) -> (rgba: Option<[u8; 4]>)
    ensures
        rgba == css_rgba8(text@),
{
    match csscolorparser::parse(text) {
        Ok(colour) => Some(colour.to_rgba8()),
        Err(_) => None,
    }
}

/// The colour that a request asks for: the one read out of its colour string,
/// or none where it carries no string or the string names no colour.
pub open spec fn requested_colour(text: Option<&str>) -> Option<[u8; 4]> {
    match text {
        Some(t) => css_rgba8(t@),
        None => None,
    }
}

/// Reads the colour of a request. See [`requested_colour`].
pub fn parse_colour(text: Option<&str>) -> (rgba: Option<[u8; 4]>)
    ensures
        rgba == requested_colour(text),
{
    match text {
        Some(t) => parse_css(t),
        None => None,
    }
}

/// A colour as one number: red in the lowest byte, then green, then blue,
/// alpha in the highest.
pub open spec fn gradient(colour: Seq<u8>) -> int {
    colour[0] + 256 * colour[1] + 65536 * colour[2] + 16777216 * colour[3]
}

/// The four bytes of a number, lowest first.
pub open spec fn channels(gradient: u32) -> Seq<u8> {
    seq![
        (gradient & 0xff) as u8,
        ((gradient >> 8) & 0xff) as u8,
        ((gradient >> 16) & 0xff) as u8,
        ((gradient >> 24) & 0xff) as u8,
    ]
}

/// Packs a colour into one number. See [`gradient`].
pub fn pack(red: u8, green: u8, blue: u8, alpha: u8) -> (packed: u32)
    ensures
        packed == gradient(seq![red, green, blue, alpha]),
        channels(packed) == seq![red, green, blue, alpha],
{
    let r: u32 = red as u32;
    let g: u32 = green as u32;
    let b: u32 = blue as u32;
    let a: u32 = alpha as u32;
    let packed: u32 = r | g << 8 | b << 16 | a << 24;
    assert(packed == r + 256 * g + 65536 * b + 16777216 * a && (packed & 0xff) == r && ((packed
        >> 8) & 0xff) == g && ((packed >> 16) & 0xff) == b && ((packed >> 24) & 0xff) == a)
        by (bit_vector)
        requires
            r < 256,
            g < 256,
            b < 256,
            a < 256,
            packed == r | g << 8 | b << 16 | a << 24,
    ;
    assert(channels(packed) =~= seq![red, green, blue, alpha]);
    packed
}

/// Packing loses nothing: the bytes of a packed colour are the colour's
/// channels, each where it was put.
pub proof fn lemma_channels_of_gradient(colour: Seq<u8>)
    requires
        colour.len() == 4,
    ensures
        0 <= gradient(colour) <= u32::MAX,
        channels(gradient(colour) as u32) == colour,
{
    let r: u32 = colour[0] as u32;
    let g: u32 = colour[1] as u32;
    let b: u32 = colour[2] as u32;
    let a: u32 = colour[3] as u32;
    let packed: u32 = (r + 256 * g + 65536 * b + 16777216 * a) as u32;
    assert((packed & 0xff) == r && ((packed >> 8) & 0xff) == g && ((packed >> 16) & 0xff) == b
        && ((packed >> 24) & 0xff) == a) by (bit_vector)
        requires
            r < 256,
            g < 256,
            b < 256,
            a < 256,
            packed == r + 256 * g + 65536 * b + 16777216 * a,
    ;
    assert(channels(packed) =~= colour);
}

} // verus!
