use vstd::prelude::*;
use image::DynamicImage;
use refimage::{ColorSpace, DynamicImageRef, GenericImageOwned, ImageRef};
use crate::events::{EventLog, Packet};

verus! {

/// The eight bytes that open every PNG file.
pub open spec fn png_signature() -> Seq<u8> {
    seq![137u8, 80u8, 78u8, 71u8, 13u8, 10u8, 26u8, 10u8]
}

/// Whether `b` starts as a PNG file does.
pub open spec fn is_png(b: Seq<u8>) -> bool {
    b.len() >= 8 && b.subrange(0, 8) == png_signature()
}

/// Largest width or height an image may have.
pub const MAX_SIDE: u32 = 65535;

/// Whether a buffer of `len` bytes can hold an RGB image of the given size, three bytes
/// per pixel, with sides of 1 to `MAX_SIDE` pixels.
pub open spec fn rgb_fits(width: nat, height: nat, len: nat) -> bool {
    &&& 1 <= width <= MAX_SIDE
    &&& 1 <= height <= MAX_SIDE
    &&& width * height * 3 <= len
}

/// Why no image could be produced.
#[derive(Debug, Clone, Copy, PartialEq, Eq, Structural)]
pub enum ImageError {
    /// The packet carries no pixel bytes.
    MissingPixels,
    /// The dimensions are out of range or the pixel bytes are too few for them.
    BadDimensions,
    /// The bytes are not valid UTF-8 text.
    NotText,
    /// The text does not describe an image.
    NotAnImage,
    /// The image's pixel format cannot be turned into a displayable image.
    Unsupported,
    /// Encoding to PNG failed.
    EncodeFailed,
}

/// The PNG file that encodes the 8-bit RGB image of the given size whose pixels open
/// `pixels`, three bytes per pixel, row after row.
pub uninterp spec fn rgb8_png_of(pixels: Seq<u8>, width: nat, height: nat) -> Seq<u8>;

/// Relies on `refimage::ImageRef::new` with `ColorSpace::Rgb`, its conversion into
/// `image::DynamicImage`, and `DynamicImage::write_to` with `ImageFormat::Png` into an
/// empty in-memory buffer. `ImageRef::new` fails exactly when a side is 0 or over 65535
/// or the data holds fewer than `width * height * 3` bytes; the conversion of an 8-bit
/// RGB image does not fail, nor does the PNG encoder on one; the encoder writes the PNG
/// signature first.
#[verifier::external_body]
fn rgb8_png(pixels: &Vec<u8>, width: usize, height: usize) -> (r: Option<Vec<u8>>)
    ensures
        r is Some <==> rgb_fits(width as nat, height as nat, pixels@.len()),
        r matches Some(b) ==> b@ == rgb8_png_of(pixels@, width as nat, height as nat) && is_png(
            b@,
        ),
{
    let mut data = pixels.clone();
    let img = ImageRef::new(data.as_mut_slice(), width, height, ColorSpace::Rgb).ok()?;
    let img = DynamicImage::try_from(DynamicImageRef::from(img)).ok()?;
    let mut out = std::io::Cursor::new(Vec::new());
    img.write_to(&mut out, image::ImageFormat::Png).ok()?;
    Some(out.into_inner())
}

/// What a JSON-serialized `refimage::GenericImageOwned` gives once decoded, converted into
/// an `image::DynamicImage` and encoded as PNG: the PNG file, or the step that failed.
pub uninterp spec fn json_image_png_of(text: Seq<char>) -> Result<Seq<u8>, ImageError>;

/// Relies on `serde_json::from_str` for `refimage::GenericImageOwned`, refimage's
/// conversion of it into `image::DynamicImage`, and `DynamicImage::write_to` with
/// `ImageFormat::Png` into an empty in-memory buffer, which writes the PNG signature
/// first. Each failing step has its own error.
#[verifier::external_body]
fn json_image_png(text: &str) -> (r: Result<Vec<u8>, ImageError>)
    ensures
        r is Ok ==> json_image_png_of(text@) == Ok::<Seq<u8>, ImageError>(r->Ok_0@),
        r is Ok ==> is_png(r->Ok_0@),
        r is Err ==> json_image_png_of(text@) == Err::<Seq<u8>, ImageError>(r->Err_0),
        r is Err ==> r->Err_0 == ImageError::NotAnImage || r->Err_0 == ImageError::Unsupported
            || r->Err_0 == ImageError::EncodeFailed,
{
    let img: GenericImageOwned = serde_json::from_str(text).map_err(|_| ImageError::NotAnImage)?;
    let img = DynamicImage::try_from(img).map_err(|_| ImageError::Unsupported)?;
    let mut out = std::io::Cursor::new(Vec::new());
    img.write_to(&mut out, image::ImageFormat::Png).map_err(|_| ImageError::EncodeFailed)?;
    Ok(out.into_inner())
}

/// What decoding bytes as UTF-8 gives: the characters, or `None` when they are not
/// valid UTF-8.
pub uninterp spec fn utf8_decoded(b: Seq<u8>) -> Option<Seq<char>>;

/// Relies on `std::str::from_utf8`: the text the bytes encode, if they are valid UTF-8.
#[verifier::external_body]
fn utf8_text(b: &[u8]) -> (r: Option<&str>)
    ensures
        r is Some <==> utf8_decoded(b@) is Some,
        r matches Some(s) ==> utf8_decoded(b@) == Some(s@),
{
    std::str::from_utf8(b).ok()
}

/// Checks whether `len` bytes hold an RGB image of the given size.
pub fn rgb_fits_exec(width: u32, height: u32, len: usize) -> (r: bool)
    ensures
        r == rgb_fits(width as nat, height as nat, len as nat),
{
    if width < 1 || width > MAX_SIDE || height < 1 || height > MAX_SIDE {
        return false;
    }
    let w = width as u64;
    let h = height as u64;
    assert(w * h <= 65535 * 65535) by (nonlinear_arith)
        requires
            w <= 65535,
            h <= 65535,
    ;
    let need: u64 = w * h * 3;
    need <= len as u64
}

/// The outcome of turning a packet's pixels into a PNG.
pub open spec fn packet_png_outcome(p: Packet, r: Result<Vec<u8>, ImageError>) -> bool {
    match p.data {
        None => r == Err::<Vec<u8>, ImageError>(ImageError::MissingPixels),
        Some(d) => if !rgb_fits(p.x_dim as nat, p.y_dim as nat, d@.len()) {
            r == Err::<Vec<u8>, ImageError>(ImageError::BadDimensions)
        } else {
            r matches Ok(b) && b@ == rgb8_png_of(d@, p.x_dim as nat, p.y_dim as nat)
        },
    }
}

/// Turns the RGB pixels of an image packet into PNG bytes ready for display.
pub fn packet_png(p: &Packet) -> (r: Result<Vec<u8>, ImageError>)
    ensures
        packet_png_outcome(*p, r),
{
    match &p.data {
        None => Err(ImageError::MissingPixels),
        Some(d) => {
            if !rgb_fits_exec(p.x_dim, p.y_dim, d.len()) {
                return Err(ImageError::BadDimensions);
            }
            match rgb8_png(d, p.x_dim as usize, p.y_dim as usize) {
                Some(b) => Ok(b),
                None => Err(ImageError::BadDimensions),
            }
        },
    }
}

/// Length of `b` once the trailing zero bytes are cut off.
pub open spec fn trimmed_len(b: Seq<u8>, n: int) -> int
    decreases n,
{
    if n <= 0 {
        0
    } else if b[n - 1] == 0 {
        trimmed_len(b, n - 1)
    } else {
        n
    }
}

/// `b` without its trailing zero bytes.
pub open spec fn trim_zeros(b: Seq<u8>) -> Seq<u8> {
    b.subrange(0, trimmed_len(b, b.len() as int))
}

proof fn lemma_trimmed_len_bounds(b: Seq<u8>, n: int)
    requires
        0 <= n <= b.len(),
    ensures
        0 <= trimmed_len(b, n) <= n,
        trimmed_len(b, n) > 0 ==> b[trimmed_len(b, n) - 1] != 0,
        forall|k: int| trimmed_len(b, n) <= k < n ==> b[k] == 0,
    decreases n,
{
    if n > 0 && b[n - 1] == 0 {
        lemma_trimmed_len_bounds(b, n - 1);
    }
}

/// Number of bytes of `b` that remain once the trailing zero bytes are cut off.
pub fn trimmed_length(b: &[u8]) -> (r: usize)
    ensures
        r as int == trimmed_len(b@, b@.len() as int),
        r <= b@.len(),
        r > 0 ==> b@[r - 1] != 0,
        forall|k: int| r <= k < b@.len() ==> b@[k] == 0,
{
    proof {
        lemma_trimmed_len_bounds(b@, b@.len() as int);
    }
    let mut n = b.len();
    while n > 0 && b[n - 1] == 0
        invariant
            n <= b@.len(),
            trimmed_len(b@, n as int) == trimmed_len(b@, b@.len() as int),
        decreases n,
    {
        n = n - 1;
    }
    n
}

/// The outcome of turning a received serialized image into a PNG.
pub open spec fn serialized_png_outcome(buffer: Seq<u8>, r: Result<Vec<u8>, ImageError>) -> bool {
    match utf8_decoded(trim_zeros(buffer)) {
        None => r == Err::<Vec<u8>, ImageError>(ImageError::NotText),
        Some(t) => match json_image_png_of(t) {
            Ok(b) => r matches Ok(v) && v@ == b,
            Err(e) => r == Err::<Vec<u8>, ImageError>(e),
        },
    }
}

/// Turns a buffer that holds a JSON-serialized image, padded with zero bytes, into PNG
/// bytes ready for display.
pub fn serialized_image_png(buffer: &[u8]) -> (r: Result<Vec<u8>, ImageError>)
    ensures
        serialized_png_outcome(buffer@, r),
{
    let n = trimmed_length(buffer);
    let body = vstd::slice::slice_subrange(buffer, 0, n);
    assert(body@ == trim_zeros(buffer@));
    let text = match utf8_text(body) {
        None => return Err(ImageError::NotText),
        Some(t) => t,
    };
    json_image_png(text)
}

/// Turns the most recent image packet of the log into PNG bytes; `None` when no image
/// packet has arrived.
pub fn latest_image_png(log: &EventLog) -> (r: Option<Result<Vec<u8>, ImageError>>)
    ensures
        log.spec_images().len() == 0 ==> r is None,
        log.spec_images().len() > 0 ==> (r matches Some(o) && packet_png_outcome(
            log.spec_images().last(),
            o,
        )),
{
    match log.latest_image() {
        None => None,
        Some(p) => Some(packet_png(p)),
    }
}

/// Sum of the first `n` bytes of `b`.
pub open spec fn sum_bytes(b: Seq<u8>, n: int) -> int
    decreases n,
{
    if n <= 0 {
        0
    } else {
        sum_bytes(b, n - 1) + b[n - 1] as int
    }
}

proof fn lemma_sum_bytes_bound(b: Seq<u8>, n: int)
    requires
        0 <= n <= b.len(),
    ensures
        0 <= sum_bytes(b, n) <= 255 * n,
    decreases n,
{
    if n > 0 {
        lemma_sum_bytes_bound(b, n - 1);
    }
}

/// Largest buffer whose byte sum is sure to fit in an `i64`.
pub const MAX_SUM_LEN: u64 = 36170086419038336;

/// The sum of all bytes of an image buffer, shown as a quick fingerprint of its content.
pub fn byte_sum(b: &[u8]) -> (r: i64)
    requires
        b@.len() <= MAX_SUM_LEN,
    ensures
        r as int == sum_bytes(b@, b@.len() as int),
{
    let mut acc: i64 = 0;
    let mut i: usize = 0;
    while i < b.len()
        invariant
            i <= b@.len(),
            b@.len() <= MAX_SUM_LEN,
            acc as int == sum_bytes(b@, i as int),
        decreases b@.len() - i,
    {
        proof {
            lemma_sum_bytes_bound(b@, i as int);
        }
        acc = acc + b[i] as i64;
        i = i + 1;
    }
    acc
}

/// A buffer of `len` zero bytes, the same size as the one it blanks out.
pub fn zeroed(len: usize) -> (r: Vec<u8>)
    ensures
        r@.len() == len,
        forall|k: int| 0 <= k < len ==> r@[k] == 0,
{
    let mut v: Vec<u8> = Vec::new();
    let mut i: usize = 0;
    while i < len
        invariant
            i <= len,
            v@.len() == i,
            forall|k: int| 0 <= k < i ==> v@[k] == 0,
        decreases len - i,
    {
        v.push(0);
        i = i + 1;
    }
    v
}

/// Once per frame: when an image packet arrived since the last frame, turns the most
/// recent one into PNG bytes and puts them in `image`. Returns whether `image` was
/// replaced; on an error `image` is left as it was.
pub fn refresh_image(log: &mut EventLog, image: &mut Option<Vec<u8>>) -> (r: Result<
    bool,
    ImageError,
>)
    ensures
        !final(log).spec_new_image(),
        final(log).spec_images() == old(log).spec_images(),
        final(log).spec_events() == old(log).spec_events(),
        !old(log).spec_new_image() || old(log).spec_images().len() == 0 ==> r == Ok::<
            bool,
            ImageError,
        >(false) && *final(image) == *old(image),
        old(log).spec_new_image() && old(log).spec_images().len() > 0 ==> match r {
            Ok(replaced) => replaced && (*final(image) matches Some(b) && packet_png_outcome(
                old(log).spec_images().last(),
                Ok(b),
            )),
            Err(e) => *final(image) == *old(image) && packet_png_outcome(
                old(log).spec_images().last(),
                Err(e),
            ),
        },
{
    if !log.take_new_image() {
        return Ok(false);
    }
    match latest_image_png(log) {
        None => Ok(false),
        Some(Ok(png)) => {
            *image = Some(png);
            Ok(true)
        },
        Some(Err(e)) => Err(e),
    }
}

} // verus!
