//! Staging of a prepared payload for upload: RGBA-to-RGB conversion, JPEG
//! compression through an external codec, and the staged JSON document
//! with the compressed image embedded as base64.

use vstd::prelude::*;
use base64::Engine;
use crate::codec::{dec_u64, json_string_bytes, low_bytes};
use crate::model::MosaicPayload;

verus! {

/// JPEG quality used for staged mosaic artifacts.
pub const MOSAIC_JPEG_QUALITY: u8 = 9;

/// The RGB bytes of an RGBA buffer: every fourth byte (alpha) dropped.
pub open spec fn rgb_of(rgba: Seq<u8>) -> Seq<u8> {
    Seq::new(rgba.len() / 4 * 3, |j: int| rgba[j / 3 * 4 + j % 3])
}

/// One character of the standard base64 alphabet.
pub open spec fn b64_char(v: int) -> char {
    if v < 26 {
        ((65 + v) as u8) as char
    } else if v < 52 {
        ((71 + v) as u8) as char
    } else if v < 62 {
        ((v - 52 + 48) as u8) as char
    } else if v == 62 {
        '+'
    } else {
        '/'
    }
}

/// Standard base64 with padding, three input bytes at a time.
pub open spec fn spec_base64(s: Seq<u8>) -> Seq<char>
    decreases s.len(),
{
    if s.len() == 0 {
        Seq::empty()
    } else if s.len() == 1 {
        let a = s[0] as int;
        seq![b64_char(a / 4), b64_char((a % 4) * 16), '=', '=']
    } else if s.len() == 2 {
        let a = s[0] as int;
        let b = s[1] as int;
        seq![b64_char(a / 4), b64_char((a % 4) * 16 + b / 16), b64_char((b % 16) * 4), '=']
    } else {
        let a = s[0] as int;
        let b = s[1] as int;
        let c = s[2] as int;
        seq![
            b64_char(a / 4),
            b64_char((a % 4) * 16 + b / 16),
            b64_char((b % 16) * 4 + c / 64),
            b64_char(c % 64),
        ] + spec_base64(s.skip(3))
    }
}

/// What the external JPEG codec produces for the given pixel bytes,
/// dimensions and quality: a function of its arguments alone.
pub uninterp spec fn jpeg_encoding(rgb: Seq<u8>, width: u32, height: u32, quality: u8) -> Seq<u8>;

/// Relies on `image`'s `JpegEncoder::new_with_quality` and `encode`: the
/// compressed output is a function of the pixel bytes, dimensions and
/// quality alone. The buffer length must match the dimensions, since the
/// encoder rejects any other buffer. Given that, encoding fails exactly
/// when a dimension is zero or above `u16::MAX` (the JPEG size limit the
/// encoder enforces); every write goes to an in-memory buffer and cannot
/// fail.
#[verifier::external_body]
fn jpeg_encode_rgb(rgb: &Vec<u8>, width: u32, height: u32, quality: u8) -> (r: Option<Vec<u8>>)
    requires
        rgb@.len() == 3 * width * height,
    ensures
        r is Some <==> (1 <= width <= 65535 && 1 <= height <= 65535),
        r matches Some(bytes) ==> bytes@ == jpeg_encoding(rgb@, width, height, quality),
{
    let mut out: Vec<u8> = Vec::new();
    let mut encoder = image::codecs::jpeg::JpegEncoder::new_with_quality(&mut out, quality);
    match encoder.encode(rgb.as_slice(), width, height, image::ExtendedColorType::Rgb8) {
        Ok(()) => Some(out),
        Err(_) => None,
    }
}

/// Relies on base64's `STANDARD` engine: RFC 4648 standard alphabet with
/// padding, as stated by `spec_base64`.
#[verifier::external_body]
fn base64_encode(bytes: &Vec<u8>) -> (r: String)
    ensures
        r@ == spec_base64(bytes@),
{
    base64::engine::general_purpose::STANDARD.encode(bytes.as_slice())
}

/// Converts an RGBA buffer to RGB by dropping every alpha byte; a buffer
/// whose length is not a multiple of four is rejected.
pub fn rgba_to_rgb(rgba: &Vec<u8>) -> (r: Result<Vec<u8>, String>)
    ensures
        rgba@.len() % 4 != 0 ==> r is Err,
        rgba@.len() % 4 == 0 ==> (r matches Ok(rgb) && rgb@ == rgb_of(rgba@)),
{
    if rgba.len() % 4 != 0 {
        return Err(String::from_str("invalid RGBA buffer length; expected a multiple of 4"));
    }
    let pixels = rgba.len() / 4;
    let mut rgb: Vec<u8> = Vec::new();
    let mut i: usize = 0;
    while i < pixels
        invariant
            rgba@.len() % 4 == 0,
            rgba@.len() <= usize::MAX,
            pixels == rgba@.len() / 4,
            i <= pixels,
            rgb@.len() == 3 * i,
            forall|j: int, c: int|
                0 <= j < i && 0 <= c < 3 ==> rgb@[3 * j + c] == rgba@[#[trigger] (4 * j + c)],
        decreases pixels - i,
    {
        let base = 4 * i;
        rgb.push(rgba[base]);
        rgb.push(rgba[base + 1]);
        rgb.push(rgba[base + 2]);
        proof {
            assert forall|j: int, c: int| 0 <= j < i + 1 && 0 <= c < 3 implies rgb@[3 * j + c]
                == rgba@[#[trigger] (4 * j + c)] by {
                if j < i {
                } else {
                    assert(rgb@[3 * j + c] == rgba@[4 * j + c]);
                }
            }
        }
        i = i + 1;
    }
    proof {
        assert forall|j: int| 0 <= j < rgb@.len() implies rgb@[j] == rgba@[j / 3 * 4 + j % 3] by {
            vstd::arithmetic::div_mod::lemma_fundamental_div_mod(j, 3);
            assert(rgb@[3 * (j / 3) + (j % 3)] == rgba@[4 * (j / 3) + (j % 3)]);
        }
        assert(rgb@ =~= rgb_of(rgba@));
    }
    Ok(rgb)
}

/// A payload staged for upload: the compressed mosaic and the JSON
/// document that embeds it.
#[derive(Debug, Clone)]
pub struct StagedPayload {
    /// JPEG bytes of the mosaic image.
    pub jpeg: Vec<u8>,
    /// Staged JSON document with the JPEG embedded as base64.
    pub document: Vec<u8>,
}

/// The staged JSON document for a payload and its compressed mosaic.
pub open spec fn spec_staged_document(p: MosaicPayload, jpeg: Seq<u8>) -> Seq<u8> {
    low_bytes("{\"schema_version\":"@) + json_string_bytes(p.schema_version@) + low_bytes(
        ",\"metadata\":{\"start_timestamp_ms\":"@,
    ) + dec_u64(p.metadata.start_timestamp_ms as int) + low_bytes(",\"end_timestamp_ms\":"@)
        + dec_u64(p.metadata.end_timestamp_ms as int) + low_bytes(",\"screen_id\":"@)
        + json_string_bytes(p.metadata.screen_id@) + low_bytes(",\"source_width\":"@) + dec_u64(
        p.metadata.source_width as int,
    ) + low_bytes(",\"source_height\":"@) + dec_u64(p.metadata.source_height as int) + low_bytes(
        ",\"session_id\":"@,
    ) + json_string_bytes(p.metadata.session_id@) + low_bytes(",\"frame_count\":"@) + dec_u64(
        p.metadata.frame_count as int,
    ) + low_bytes("},\"mosaic_width\":"@) + dec_u64(p.mosaic_width as int) + low_bytes(
        ",\"mosaic_height\":"@,
    ) + dec_u64(p.mosaic_height as int) + low_bytes(",\"mosaic_format\":\"jpeg\""@) + low_bytes(
        ",\"mosaic_color_space\":\"RGB\""@,
    ) + low_bytes(",\"mosaic_jpeg_quality\":"@) + dec_u64(MOSAIC_JPEG_QUALITY as int) + low_bytes(
        ",\"mosaic_jpeg_base64\":"@,
    ) + json_string_bytes(spec_base64(jpeg)) + low_bytes("}"@)
}

/// Stages one payload for upload: converts the mosaic to RGB, compresses
/// it through the external JPEG codec at the fixed quality, and builds
/// the staged JSON document embedding the JPEG as base64.
///
/// Staging succeeds exactly when the mosaic buffer matches the declared
/// dimensions and both dimensions are within the JPEG size limit.
pub fn stage_payload_for_upload(payload: &MosaicPayload) -> (r: Result<StagedPayload, String>)
    ensures
        r is Ok <==> (payload.mosaic_rgba@.len() == 4 * payload.mosaic_width
            * payload.mosaic_height && 1 <= payload.mosaic_width <= 65535 && 1
            <= payload.mosaic_height <= 65535),
        r matches Ok(staged) ==> payload.mosaic_rgba@.len() % 4 == 0 && staged.jpeg@
            == jpeg_encoding(
            rgb_of(payload.mosaic_rgba@),
            payload.mosaic_width,
            payload.mosaic_height,
            MOSAIC_JPEG_QUALITY,
        ) && staged.document@ == spec_staged_document(*payload, staged.jpeg@),
{
    let ghost w = payload.mosaic_width as int;
    let ghost h = payload.mosaic_height as int;
    let rgb = match rgba_to_rgb(&payload.mosaic_rgba) {
        Ok(rgb) => rgb,
        Err(e) => {
            proof {
                assert(4 * w * h == (w * h) * 4) by (nonlinear_arith);
                vstd::arithmetic::div_mod::lemma_mod_multiples_basic(w * h, 4);
            }
            return Err(e);
        },
    };
    let expected = match (payload.mosaic_width as u64).checked_mul(payload.mosaic_height as u64) {
        Some(pixels) => match pixels.checked_mul(3) {
            Some(v) => v,
            None => {
                proof {
                    assert(w > 65535 || h > 65535) by (nonlinear_arith)
                        requires
                            (w * h) * 3 > u64::MAX,
                            w >= 0,
                            h >= 0,
                    ;
                }
                return Err(String::from_str("mosaic dimensions overflow"));
            },
        },
        None => {
            proof {
                assert(false) by (nonlinear_arith)
                    requires
                        w * h > u64::MAX,
                        0 <= w < 0x1_0000_0000,
                        0 <= h < 0x1_0000_0000,
                ;
            }
            return Err(String::from_str("mosaic dimensions overflow"));
        },
    };
    if !(rgb.len() as u64 == expected) {
        proof {
            // The buffer can only mismatch when its length is not 4*w*h.
            assert(payload.mosaic_rgba@.len() != 4 * w * h) by (nonlinear_arith)
                requires
                    rgb@.len() == payload.mosaic_rgba@.len() / 4 * 3,
                    payload.mosaic_rgba@.len() % 4 == 0,
                    rgb@.len() != (w * h) * 3,
                    w >= 0,
                    h >= 0,
            ;
        }
        return Err(String::from_str("mosaic buffer does not match its dimensions"));
    }
    proof {
        assert(rgb@.len() == 3 * payload.mosaic_width * payload.mosaic_height)
            by (nonlinear_arith)
            requires
                rgb@.len() == (payload.mosaic_width as int) * (payload.mosaic_height as int) * 3,
        ;
        assert(payload.mosaic_rgba@.len() == 4 * w * h) by (nonlinear_arith)
            requires
                rgb@.len() == payload.mosaic_rgba@.len() / 4 * 3,
                payload.mosaic_rgba@.len() % 4 == 0,
                rgb@.len() == (w * h) * 3,
                w >= 0,
                h >= 0,
        ;
    }
    let jpeg = match jpeg_encode_rgb(&rgb, payload.mosaic_width, payload.mosaic_height,
        MOSAIC_JPEG_QUALITY) {
        Some(jpeg) => jpeg,
        None => { return Err(String::from_str("jpeg encoding failed")) },
    };
    let jpeg_b64 = base64_encode(&jpeg);

    let mut document: Vec<u8> = Vec::new();
    crate::codec::push_low_bytes(&mut document, "{\"schema_version\":");
    crate::codec::push_json_string(&mut document, payload.schema_version.as_str());
    crate::codec::push_low_bytes(&mut document, ",\"metadata\":{\"start_timestamp_ms\":");
    crate::codec::push_dec_u64(&mut document, payload.metadata.start_timestamp_ms);
    crate::codec::push_low_bytes(&mut document, ",\"end_timestamp_ms\":");
    crate::codec::push_dec_u64(&mut document, payload.metadata.end_timestamp_ms);
    crate::codec::push_low_bytes(&mut document, ",\"screen_id\":");
    crate::codec::push_json_string(&mut document, payload.metadata.screen_id.as_str());
    crate::codec::push_low_bytes(&mut document, ",\"source_width\":");
    crate::codec::push_dec_u64(&mut document, payload.metadata.source_width as u64);
    crate::codec::push_low_bytes(&mut document, ",\"source_height\":");
    crate::codec::push_dec_u64(&mut document, payload.metadata.source_height as u64);
    crate::codec::push_low_bytes(&mut document, ",\"session_id\":");
    crate::codec::push_json_string(&mut document, payload.metadata.session_id.as_str());
    crate::codec::push_low_bytes(&mut document, ",\"frame_count\":");
    crate::codec::push_dec_u64(&mut document, payload.metadata.frame_count as u64);
    crate::codec::push_low_bytes(&mut document, "},\"mosaic_width\":");
    crate::codec::push_dec_u64(&mut document, payload.mosaic_width as u64);
    crate::codec::push_low_bytes(&mut document, ",\"mosaic_height\":");
    crate::codec::push_dec_u64(&mut document, payload.mosaic_height as u64);
    crate::codec::push_low_bytes(&mut document, ",\"mosaic_format\":\"jpeg\"");
    crate::codec::push_low_bytes(&mut document, ",\"mosaic_color_space\":\"RGB\"");
    crate::codec::push_low_bytes(&mut document, ",\"mosaic_jpeg_quality\":");
    crate::codec::push_dec_u64(&mut document, MOSAIC_JPEG_QUALITY as u64);
    crate::codec::push_low_bytes(&mut document, ",\"mosaic_jpeg_base64\":");
    crate::codec::push_json_string(&mut document, jpeg_b64.as_str());
    crate::codec::push_low_bytes(&mut document, "}");

    Ok(StagedPayload { jpeg, document })
}

} // verus!
