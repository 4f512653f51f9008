//! Rendering a signed ticket as a QR code image.

use vstd::prelude::*;
use crate::messages::{signed_ticket_bytes, SignedTicket};
use qrcode::types::QrError as CodeError;

verus! {

#[verifier::external_type_specification]
#[verifier::external_body]
pub struct ExQrCode(qrcode::QrCode);

#[verifier::external_type_specification]
#[verifier::external_body]
pub struct ExCodeError(CodeError);

#[verifier::external_type_specification]
#[verifier::external_body]
pub struct ExImageError(image::ImageError);

/// The most characters any QR code can hold (version 40, lowest error
/// correction, all digits).
pub const MAX_CODE_TEXT: usize = 7089;

/// The longest signed ticket whose base64 text stays within `MAX_CODE_TEXT`.
pub const MAX_CODE_PAYLOAD: usize = 5316;

/// The character of the standard base64 alphabet for a 6-bit value.
pub open spec fn base64_digit(v: int) -> char {
    if v < 26 {
        ((65 + v) as u8) as char
    } else if v < 52 {
        ((97 + v - 26) as u8) as char
    } else if v < 62 {
        ((48 + v - 52) as u8) as char
    } else if v == 62 {
        '+'
    } else {
        '/'
    }
}

/// Standard base64 with `=` padding and no line breaks.
pub open spec fn base64_std(b: Seq<u8>) -> Seq<char>
    decreases b.len(),
{
    if b.len() == 0 {
        Seq::empty()
    } else if b.len() == 1 {
        seq![base64_digit((b[0] as int) / 4), base64_digit(((b[0] as int) % 4) * 16), '=', '=']
    } else if b.len() == 2 {
        seq![
            base64_digit((b[0] as int) / 4),
            base64_digit(((b[0] as int) % 4) * 16 + (b[1] as int) / 16),
            base64_digit(((b[1] as int) % 16) * 4),
            '=',
        ]
    } else {
        seq![
            base64_digit((b[0] as int) / 4),
            base64_digit(((b[0] as int) % 4) * 16 + (b[1] as int) / 16),
            base64_digit(((b[1] as int) % 16) * 4 + (b[2] as int) / 64),
            base64_digit((b[2] as int) % 64),
        ] + base64_std(b.subrange(3, b.len() as int))
    }
}

/// Whether the QR encoder at medium error correction can hold `text`.
pub uninterp spec fn qr_encodable(text: Seq<char>) -> bool;

/// A text that fits a QR code.
pub open spec fn code_fits(text: Seq<char>) -> bool {
    text.len() <= MAX_CODE_TEXT && qr_encodable(text)
}

/// The base64 text that a QR code carries for a signed ticket.
pub open spec fn code_text(payload: Seq<u8>, signature: Seq<u8>) -> Seq<char> {
    base64_std(signed_ticket_bytes(payload, signature))
}

pub proof fn lemma_base64_len(b: Seq<u8>)
    ensures
        base64_std(b).len() == 4 * ((b.len() + 2) / 3),
    decreases b.len(),
{
    if b.len() >= 3 {
        lemma_base64_len(b.subrange(3, b.len() as int));
    }
}

/// Relies on base64's `STANDARD` engine and `Engine::encode`: padded
/// standard-alphabet base64 without line breaks (it panics only where the
/// output length overflows `usize`).
#[verifier::external_body]
fn base64_encode(data: &[u8]) -> (r: String)
    requires
        data@.len() <= MAX_CODE_PAYLOAD,
    ensures
        r@ == base64_std(data@),
{
    base64::Engine::encode(&base64::engine::general_purpose::STANDARD, data)
}

/// The width in pixels of the rendered QR code for `text`, with square
/// modules of `module_size` pixels.
pub uninterp spec fn qr_width(text: Seq<char>, module_size: u32) -> u32;

/// The gray pixels, row by row, of the rendered QR code for `text`, with
/// square modules of `module_size` pixels.
pub uninterp spec fn qr_pixels(text: Seq<char>, module_size: u32) -> Seq<u8>;

/// Whether PNG encoding of a square 8-bit gray image succeeds.
pub uninterp spec fn png_l8_ok(width: u32, pixels: Seq<u8>) -> bool;

/// The PNG encoding of a square 8-bit gray image.
pub uninterp spec fn png_l8(width: u32, pixels: Seq<u8>) -> Seq<u8>;

/// Relies on `qrcode::types::QrError::DataTooLong`: the error that
/// `QrCode::new` gives for text that no QR version holds.
#[verifier::external_body]
fn data_too_long() -> (r: CodeError) {
    CodeError::DataTooLong
}

/// Relies on `qrcode::QrCode::new` (error correction level M, smallest
/// version that fits) and on its image renderer (`render`,
/// `module_dimensions`, `build`): whether the code can be made depends on the
/// text alone, no QR version holds more than `MAX_CODE_TEXT` characters, and
/// the rendered image is square with one byte per pixel.
#[verifier::external_body]
fn qr_raster(text: &str, module_size: u32) -> (r: Result<(u32, Vec<u8>), CodeError>)
    requires
        1 <= module_size <= 16,
    ensures
        r is Ok <==> qr_encodable(text@),
        text@.len() > MAX_CODE_TEXT ==> r is Err,
        r matches Ok((w, px)) ==> w == qr_width(text@, module_size) && px@ == qr_pixels(
            text@,
            module_size,
        ) && px@.len() == w as int * w as int,
{
    let code = qrcode::QrCode::new(text)?;
    let img = code.render::<image::Luma<u8>>().module_dimensions(module_size, module_size).build();
    Ok((img.width(), img.into_raw()))
}

/// Relies on `image::write_buffer_with_format` with PNG and 8-bit gray: the
/// outcome depends on the width and the pixels alone; it asserts that the
/// buffer holds width times width bytes.
#[verifier::external_body]
fn png_encode(width: u32, pixels: &[u8]) -> (r: Result<Vec<u8>, image::ImageError>)
    requires
        pixels@.len() == width as int * width as int,
    ensures
        r is Ok <==> png_l8_ok(width, pixels@),
        r matches Ok(v) ==> v@ == png_l8(width, pixels@),
{
    let mut out: Vec<u8> = Vec::new();
    let res = image::write_buffer_with_format(
        &mut std::io::Cursor::new(&mut out),
        pixels,
        width,
        width,
        image::ExtendedColorType::L8,
        image::ImageFormat::Png,
    );
    res.map(|_| out)
}

/// Pixels per side of one QR module in the image.
pub const MODULE_PIXELS: u32 = 1;

/// The QR image for a text can be made.
pub open spec fn code_image_ok(text: Seq<char>) -> bool {
    code_fits(text) && png_l8_ok(qr_width(text, MODULE_PIXELS), qr_pixels(text, MODULE_PIXELS))
}

/// The PNG image of the QR code for a text.
pub open spec fn code_image(text: Seq<char>) -> Seq<u8> {
    png_l8(qr_width(text, MODULE_PIXELS), qr_pixels(text, MODULE_PIXELS))
}

/// Why a QR image could not be made, with the cause as the outside crate
/// gave it.
#[derive(Debug)]
pub enum QrError {
    /// The signed ticket does not fit a QR code.
    QrCreationError(CodeError),
    /// The image could not be written as PNG.
    ImageWriteError(image::ImageError),
}

/// A PNG image of the QR code that holds the base64 text of the signed
/// ticket, one pixel per module.
pub fn make_qr_code(signed_ticket: SignedTicket) -> (r: Result<Vec<u8>, QrError>)
    ensures
        ({
            let t = code_text(signed_ticket.ticket@, signed_ticket.signature@);
            &&& (r is Err && r->Err_0 is QrCreationError) <==> !code_fits(t)
            &&& (r is Err && r->Err_0 is ImageWriteError) <==> code_fits(t) && !code_image_ok(t)
            &&& r is Ok <==> code_image_ok(t)
            &&& r matches Ok(v) ==> v@ == code_image(t)
        }),
        signed_ticket_bytes(signed_ticket.ticket@, signed_ticket.signature@).len()
            > MAX_CODE_PAYLOAD ==> r matches Err(QrError::QrCreationError(_)),
{
    let data = signed_ticket.encode_to_vec();
    proof {
        lemma_base64_len(data@);
    }
    if data.len() > MAX_CODE_PAYLOAD {
        return Err(QrError::QrCreationError(data_too_long()));
    }
    let text = base64_encode(data.as_slice());
    match qr_raster(text.as_str(), MODULE_PIXELS) {
        Err(e) => Err(QrError::QrCreationError(e)),
        Ok((width, pixels)) => match png_encode(width, pixels.as_slice()) {
            Ok(png) => Ok(png),
            Err(e) => Err(QrError::ImageWriteError(e)),
        },
    }
}

} // verus!
