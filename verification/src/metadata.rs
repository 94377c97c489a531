//! The compute core of the image-metadata service: probe an arbitrary
//! encoded byte stream for its format and dimensions and describe it. The
//! probing itself is delegated to the external image-decoding library;
//! decode failure is an ordinary answer (`unknown` format, no dimensions),
//! never an error.

use vstd::prelude::*;
use vstd::string::StringExecFns;
use crate::text::{dec_digits, decimal_string};

verus! {

/// The lowercased name of the image format that sniffing the byte stream
/// yields, if any. The result of `image::guess_format` depends on the bytes
/// alone.
pub uninterp spec fn format_name_of(data: Seq<u8>) -> Option<Seq<char>>;

/// The dimensions of the decoded image, if the byte stream decodes. The
/// result of `image::load_from_memory` depends on the bytes alone.
pub uninterp spec fn decoded_dims_of(data: Seq<u8>) -> Option<(u32, u32)>;

/// Relies on `image::guess_format`: it sniffs the format from the buffer's
/// magic bytes, deterministically. The format's identifier is rendered in
/// lower case, as the service reports it.
#[verifier::external_body]
fn sniff_format(data: &[u8]) -> (r: Option<String>)
    ensures
        r is Some <==> format_name_of(data@) is Some,
        r matches Some(s) ==> format_name_of(data@) == Some(s@),
{
    match image::guess_format(data) {
        Ok(f) => Some(format!("{:?}", f).to_lowercase()),
        Err(_) => None,
    }
}

/// Relies on `image::load_from_memory`: it decodes the buffer with a
/// guessed format, deterministically, and reports the decoded image's
/// width and height.
#[verifier::external_body]
fn decode_dimensions(data: &[u8]) -> (r: Option<(u32, u32)>)
    ensures
        r == decoded_dims_of(data@),
{
    match image::load_from_memory(data) {
        Ok(img) => Some((img.width(), img.height())),
        Err(_) => None,
    }
}

/// What the service reports about one uploaded byte stream.
pub struct ImageMetadata {
    pub size_bytes: usize,
    pub format: String,
    pub width: Option<u32>,
    pub height: Option<u32>,
    pub message: String,
}

/// The format label the service reports: `none` for an empty body, the
/// sniffed format's name when one is recognised, `unknown` otherwise.
pub open spec fn format_label(data: Seq<u8>) -> Seq<char> {
    if data.len() == 0 {
        "none"@
    } else {
        match format_name_of(data) {
            Some(s) => s,
            None => "unknown"@,
        }
    }
}

/// The dimensions the service reports: only a non-empty body is probed.
pub open spec fn probe_dims(data: Seq<u8>) -> Option<(u32, u32)> {
    if data.len() == 0 {
        None
    } else {
        decoded_dims_of(data)
    }
}

/// The receipt line the service includes with every answer.
pub open spec fn metadata_message(n: nat, method: Seq<char>, path: Seq<char>) -> Seq<char> {
    "Received "@ + dec_digits(n) + " bytes - Method: "@ + method + ", Path: "@ + path
}

/// Probes one uploaded body and assembles the service's answer: the byte
/// count, the format label, the decoded dimensions where decoding
/// succeeds, and a receipt message naming the request's method and path.
pub fn inspect_image(body: &[u8], method: &str, path: &str) -> (m: ImageMetadata)
    ensures
        m.size_bytes == body@.len(),
        m.format@ == format_label(body@),
        m.width == (match probe_dims(body@) {
            Some(d) => Some(d.0),
            None => None::<u32>,
        }),
        m.height == (match probe_dims(body@) {
            Some(d) => Some(d.1),
            None => None::<u32>,
        }),
        m.message@ == metadata_message(body@.len(), method@, path@),
{
    let size_bytes = body.len();
    let format: String;
    let width: Option<u32>;
    let height: Option<u32>;
    if size_bytes == 0 {
        format = "none".to_owned();
        width = None;
        height = None;
    } else {
        match sniff_format(body) {
            Some(s) => {
                format = s;
            },
            None => {
                format = "unknown".to_owned();
            },
        }
        match decode_dimensions(body) {
            Some(wh) => {
                width = Some(wh.0);
                height = Some(wh.1);
            },
            None => {
                width = None;
                height = None;
            },
        }
    }
    let mut message = String::new();
    message.append("Received ");
    let n = decimal_string(size_bytes as u128);
    message.append(n.as_str());
    message.append(" bytes - Method: ");
    message.append(method);
    message.append(", Path: ");
    message.append(path);
    proof {
        assert(message@ =~= metadata_message(body@.len(), method@, path@));
    }
    ImageMetadata { size_bytes, format, width, height, message }
}

} // verus!
