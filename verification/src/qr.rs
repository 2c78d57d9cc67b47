//! The QR codes that bring a client to the server or carry a snippet to
//! a phone.

use qrcode::render::svg;
use qrcode::{EcLevel, QrCode};
use vstd::prelude::*;
use vstd::string::StringExecFns;

verus! {

/// How much of a QR code may be damaged and still be read.
#[derive(Clone, Copy, Debug, PartialEq, Eq)]
pub enum Correction {
    Low,
    Medium,
    Quartile,
    High,
}

/// The image, as SVG markup, of the smallest QR code that holds `data` at
/// the correction level `level`, drawn in the colours `dark` and `light`
/// with or without the quiet zone around it; none where no QR code holds
/// `data`.
pub uninterp spec fn qr_svg_markup(
    data: Seq<char>,
    level: Correction,
    dark: Seq<char>,
    light: Seq<char>,
    quiet_zone: bool,
) -> Option<Seq<char>>;

/// The image, as lines of block characters and blanks, of the smallest QR
/// code that holds `data` at the correction level `level`; none where no
/// QR code holds `data`.
pub uninterp spec fn qr_block_text(data: Seq<char>, level: Correction) -> Option<Seq<char>>;

/// The text of a string that may be absent.
pub open spec fn text_of(s: Option<String>) -> Option<Seq<char>> {
    match s {
        Some(s) => Some(s@),
        None => None,
    }
}

/// The notice that invites to the page at `url`, with the QR code `code`
/// below it.
pub open spec fn banner(url: Seq<char>, code: Seq<char>) -> Seq<char> {
    "Visit <"@ + url + ">\n"@ + code
}

/// The notice for `url` with the QR code that was drawn for it, if one
/// was.
pub open spec fn banner_with(url: Seq<char>, code: Option<Seq<char>>) -> Option<Seq<char>> {
    match code {
        Some(c) => Some(banner(url, c)),
        None => None,
    }
}

/// Encodes with `QrCode::with_error_correction_level` and draws with the
/// SVG renderer of the `qrcode` crate, whose colours and quiet zone are
/// set as given. The markup depends on the arguments alone; the encoder
/// fails where the data is too long for any QR code, and then there is no
/// image.
#[verifier::external_body]
fn draw_svg(data: &str, level: Correction, dark: &str, light: &str, quiet_zone: bool) -> (image:
    Option<String>)
    ensures
        text_of(image) == qr_svg_markup(data@, level, dark@, light@, quiet_zone),
{
    let ec = match level {
        Correction::Low => EcLevel::L,
        Correction::Medium => EcLevel::M,
        Correction::Quartile => EcLevel::Q,
        Correction::High => EcLevel::H,
    };
    match QrCode::with_error_correction_level(data, ec) {
        Ok(code) => Some(
            code.render().dark_color(svg::Color(dark)).light_color(svg::Color(light)).quiet_zone(
                quiet_zone,
            ).build(),
        ),
        Err(_) => None,
    }
}

/// Encodes with `QrCode::with_error_correction_level` and draws with the
/// character renderer of the `qrcode` crate as it is set up by default.
/// The text depends on the arguments alone; the encoder fails where the
/// data is too long for any QR code, and then there is no image.
#[verifier::external_body]
fn draw_blocks(data: &str, level: Correction) -> (image: Option<String>)
    ensures
        text_of(image) == qr_block_text(data@, level),
{
    let ec = match level {
        Correction::Low => EcLevel::L,
        Correction::Medium => EcLevel::M,
        Correction::Quartile => EcLevel::Q,
        Correction::High => EcLevel::H,
    };
    match QrCode::with_error_correction_level(data, ec) {
        Ok(code) => Some(code.render::<char>().build()),
        Err(_) => None,
    }
}

/// Draws the QR code that carries `text`, for a page with a dark
/// background: light modules on nothing, at the lowest correction level
/// and without a quiet zone. None where `text` is too long for a QR code.
pub fn share_image(text: &str) -> (image: Option<String>)
    ensures
        text_of(image) == qr_svg_markup(
            text@,
            Correction::Low,
            "#eee"@,
            "transparent"@,
            false,
        ),
{
    draw_svg(text, Correction::Low, "#eee", "transparent", false)
}

/// Puts the notice for `url` above its QR code.
pub fn compose_banner(url: &str, code: &str) -> (out: String)
    ensures
        out@ == banner(url@, code@),
{
    let mut out = String::from_str("Visit <");
    out.append(url);
    out.append(">\n");
    out.append(code);
    out
}

/// The notice for `url` once its QR code was drawn, or not.
pub fn banner_for(url: &str, code: Option<String>) -> (out: Option<String>)
    ensures
        text_of(out) == banner_with(url@, text_of(code)),
{
    match code {
        Some(c) => Some(compose_banner(url, c.as_str())),
        None => None,
    }
}

/// The notice that invites to the page at `url`, with a QR code for a
/// terminal below it. None where `url` is too long for a QR code.
pub fn visit_banner(url: &str) -> (out: Option<String>)
    ensures
        text_of(out) == banner_with(url@, qr_block_text(url@, Correction::Low)),
{
    banner_for(url, draw_blocks(url, Correction::Low))
}

} // verus!
