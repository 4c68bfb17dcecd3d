//! QR rendering of a code's constructed short URL.

use vstd::prelude::*;

use crate::allocation::short_url_of;
use crate::error::AppError;
use crate::store::{lookup_url, Store};

verus! {

/// The SVG image that encodes `url` as a QR symbol. The rendering is a
/// function of the encoded characters alone.
pub uninterp spec fn qr_svg_of(url: Seq<char>) -> Seq<char>;

/// Relies on qrcode::QrCode::new and its SVG renderer: with default
/// settings the rendered image depends on the encoded bytes alone;
/// encoding fails only when the data exceeds the symbol capacity.
#[verifier::external_body]
fn render_qr_svg(url: &String) -> (r: Option<String>)
    ensures
        r matches Some(svg) ==> svg@ == qr_svg_of(url@),
{
    match qrcode::QrCode::new(url.as_bytes()) {
        Ok(code) => Some(code.render::<qrcode::render::svg::Color>().build()),
        Err(_) => None,
    }
}

/// Build the short URL for a known code and render it as an SVG QR image.
/// An absent code is not found; a rendering failure is an internal error.
pub fn generate_qr(store: &Store, code: &String, base_url: &String) -> (r: Result<
    String,
    AppError,
>)
    ensures
        lookup_url(store@.urls, code@) is None ==> r matches Err(AppError::UrlNotFound),
        lookup_url(store@.urls, code@) is Some ==> match r {
            Ok(svg) => svg@ == qr_svg_of(short_url_of(base_url@, code@)),
            Err(e) => e matches AppError::InternalServerError(_),
        },
{
    if store.find_url(code).is_none() {
        return Err(AppError::UrlNotFound);
    }
    let short_url = base_url.clone().concat("/").concat(code.as_str());
    match render_qr_svg(&short_url) {
        Some(svg) => Ok(svg),
        None => Err(AppError::InternalServerError("QR generation failed".to_owned())),
    }
}

} // verus!
