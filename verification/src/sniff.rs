//! Content sniffing of image headers: the magic-byte predicates of the
//! supported formats, and trusted calls into the `infer` crate's matchers.

use vstd::prelude::*;

verus! {

/// The JPEG magic bytes.
pub open spec fn jpeg_magic(b: Seq<u8>) -> bool {
    b.len() > 2 && b[0] == 0xFF && b[1] == 0xD8 && b[2] == 0xFF
}

/// The PNG magic bytes.
pub open spec fn png_magic(b: Seq<u8>) -> bool {
    b.len() > 3 && b[0] == 0x89 && b[1] == 0x50 && b[2] == 0x4E && b[3] == 0x47
}

/// The GIF magic bytes.
pub open spec fn gif_magic(b: Seq<u8>) -> bool {
    b.len() > 2 && b[0] == 0x47 && b[1] == 0x49 && b[2] == 0x46
}

/// The WEBP magic bytes.
pub open spec fn webp_magic(b: Seq<u8>) -> bool {
    b.len() > 11 && b[8] == 0x57 && b[9] == 0x45 && b[10] == 0x42 && b[11] == 0x50
}

/// The Canon CR2 magic bytes, which refine the TIFF ones.
pub open spec fn cr2_magic(b: Seq<u8>) -> bool {
    b.len() > 10 && ((b[0] == 0x49 && b[1] == 0x49 && b[2] == 0x2A && b[3] == 0x00) || (b[0]
        == 0x4D && b[1] == 0x4D && b[2] == 0x00 && b[3] == 0x2A)) && b[8] == 0x43 && b[9] == 0x52
        && b[10] == 0x02
}

/// The TIFF magic bytes, excluding CR2 files.
pub open spec fn tiff_magic(b: Seq<u8>) -> bool {
    b.len() > 9 && ((b[0] == 0x49 && b[1] == 0x49 && b[2] == 0x2A && b[3] == 0x00) || (b[0] == 0x4D
        && b[1] == 0x4D && b[2] == 0x00 && b[3] == 0x2A)) && b[8] != 0x43 && b[9] != 0x52
        && !cr2_magic(b)
}

/// Relies on infer::image::is_jpeg: true exactly on the JPEG magic bytes.
#[verifier::external_body]
pub fn is_jpeg_header(buf: &[u8]) -> (r: bool)
    ensures
        r == jpeg_magic(buf@),
{
    infer::image::is_jpeg(buf)
}

/// Relies on infer::image::is_png: true exactly on the PNG magic bytes.
#[verifier::external_body]
pub fn is_png_header(buf: &[u8]) -> (r: bool)
    ensures
        r == png_magic(buf@),
{
    infer::image::is_png(buf)
}

/// Relies on infer::image::is_gif: true exactly on the GIF magic bytes.
#[verifier::external_body]
pub fn is_gif_header(buf: &[u8]) -> (r: bool)
    ensures
        r == gif_magic(buf@),
{
    infer::image::is_gif(buf)
}

/// Relies on infer::image::is_webp: true exactly on the WEBP magic bytes.
#[verifier::external_body]
pub fn is_webp_header(buf: &[u8]) -> (r: bool)
    ensures
        r == webp_magic(buf@),
{
    infer::image::is_webp(buf)
}

/// The mime string that `infer::get` reports for a byte buffer, if any; the
/// matchers read only the bytes, so the answer is a function of them alone.
pub uninterp spec fn sniffed_mime(b: Seq<u8>) -> Option<Seq<char>>;

/// Relies on infer::get, which tries its fixed matcher list on the buffer and
/// hands back the first match; Type::mime_type reads a field of the match.
/// A buffer bearing one of the five image magics always matches something,
/// and each of these five mime strings is produced by exactly one matcher,
/// which tests exactly the magic bytes stated above.
#[verifier::external_body]
pub fn sniff_mime(buf: &[u8]) -> (r: Option<String>)
    ensures
        r.deep_view() == sniffed_mime(buf@),
        (jpeg_magic(buf@) || png_magic(buf@) || gif_magic(buf@) || webp_magic(buf@) || tiff_magic(
            buf@,
        )) ==> r.is_some(),
        match r {
            Some(m) => {
                &&& (m@ == "image/jpeg"@ ==> jpeg_magic(buf@))
                &&& (m@ == "image/png"@ ==> png_magic(buf@))
                &&& (m@ == "image/gif"@ ==> gif_magic(buf@))
                &&& (m@ == "image/webp"@ ==> webp_magic(buf@))
                &&& (m@ == "image/tiff"@ ==> tiff_magic(buf@))
            },
            None => !jpeg_magic(buf@) && !png_magic(buf@) && !gif_magic(buf@) && !webp_magic(buf@)
                && !tiff_magic(buf@),
        },
{
    infer::get(buf).map(|t| String::from(t.mime_type()))
}

} // verus!
