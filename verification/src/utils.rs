use base64::{engine, read, Engine};
use std::io::{Cursor, Read};
use vstd::prelude::*;
use vstd::slice::slice_subrange;

use crate::b64::{b64_decoded, b64_encoded, is_b64_text, law_b64_round_trip};
use crate::consts::GOOGLE_WAV_HEADER_SZ;
use crate::twilio_types::{OutboundMediaMeta, TwilioOutbound};

verus! {

/// Reads `enc` to its end through `base64::read::DecoderReader` with the engine `STANDARD`.
/// Trusted: the bytes that come out are those whose base64 text, by the standard alphabet and with
/// padding, is `enc`; where the text is refused there are no such bytes.
#[verifier::external_body]
fn decode_standard(enc: &str) -> (bytes: Option<Vec<u8>>)
    ensures
        match bytes {
            Some(b) => b64_encoded(b@) == enc@,
            None => !is_b64_text(enc@),
        },
{
    let mut cur = Cursor::new(enc);
    let mut decoder = read::DecoderReader::new(&mut cur, &engine::general_purpose::STANDARD);
    let mut bytes = Vec::new();
    match decoder.read_to_end(&mut bytes) {
        Ok(_) => Some(bytes),
        Err(_) => None,
    }
}

/// Encodes with `Engine::encode` of the engine `STANDARD`. Trusted: what comes out is the base64
/// text of the bytes, by the standard alphabet and with padding.
#[verifier::external_body]
fn encode_standard(bytes: &[u8]) -> (enc: String)
    ensures
        enc@ == b64_encoded(bytes@),
{
    engine::general_purpose::STANDARD.encode(bytes)
}

/// Decodes base64.
fn decode(enc: &str) -> (bytes: Option<Vec<u8>>)
    ensures
        b64_decoded(enc@) == (match bytes {
            Some(b) => Some(b@),
            None => None,
        }),
{
    let bytes = decode_standard(enc);
    proof {
        if bytes is Some {
            law_b64_round_trip(bytes->0@);
        }
    }
    bytes
}

/// The bytes that `enc` stands for, where it is base64.
pub open spec fn b64_bytes(enc: Seq<char>) -> Seq<u8>
    recommends
        b64_decoded(enc) is Some,
{
    b64_decoded(enc)->0
}

/// `enc` is base64 of audio that has the header in front that Google puts there.
pub open spec fn is_google_tts(enc: Seq<char>) -> bool {
    b64_decoded(enc) is Some && b64_bytes(enc).len() >= GOOGLE_WAV_HEADER_SZ
}

/// `msg` has Twilio play `audio` on the stream `stream_sid`.
pub open spec fn plays(msg: TwilioOutbound, audio: Seq<u8>, stream_sid: Seq<char>) -> bool {
    &&& msg matches TwilioOutbound::Media { media, stream_sid: sid }
    &&& media.payload@ == b64_encoded(audio)
    &&& b64_decoded(media.payload@) == Some(audio)
    &&& sid@ == stream_sid
}

/// Decodes base64 and puts the bytes behind those that `buf` holds.
pub fn b64_decode_to_buf(enc: String, buf: &mut Vec<u8>)
    requires
        b64_decoded(enc@) is Some,
    ensures
        final(buf)@ == old(buf)@ + b64_bytes(enc@),
{
    if let Some(mut bytes) = decode(enc.as_str()) {
        buf.append(&mut bytes);
    }
}

/// Decodes base64 as `b64_decode_to_buf` does, and says whether the text was base64. Where it was
/// not, `buf` stays as it is.
pub fn try_b64_decode_to_buf(enc: String, buf: &mut Vec<u8>) -> (decoded: bool)
    ensures
        decoded == (b64_decoded(enc@) is Some),
        final(buf)@ == if decoded {
            old(buf)@ + b64_bytes(enc@)
        } else {
            old(buf)@
        },
{
    if is_b64(enc.as_str()) {
        b64_decode_to_buf(enc, buf);
        true
    } else {
        false
    }
}

/// Whether a text is base64.
pub fn is_b64(enc: &str) -> (yes: bool)
    ensures
        yes == (b64_decoded(enc@) is Some),
{
    decode(enc).is_some()
}

/// Whether a text is base64 of audio with a header in front.
pub fn has_google_header(enc: &str) -> (yes: bool)
    ensures
        yes == is_google_tts(enc@),
{
    match decode(enc) {
        Some(bytes) => bytes.len() >= GOOGLE_WAV_HEADER_SZ,
        None => false,
    }
}

/// Makes the message that plays the audio behind the header of `body`.
pub fn media_message(body: &Vec<u8>, stream_sid: &str) -> (msg: TwilioOutbound)
    requires
        body@.len() >= GOOGLE_WAV_HEADER_SZ,
    ensures
        plays(msg, body@.skip(GOOGLE_WAV_HEADER_SZ as int), stream_sid@),
{
    let trimmed = slice_subrange(body.as_slice(), GOOGLE_WAV_HEADER_SZ, body.len());
    let re_encoded: String = encode_standard(trimmed);
    proof {
        law_b64_round_trip(trimmed@);
    }
    assert(trimmed@ =~= body@.skip(GOOGLE_WAV_HEADER_SZ as int));
    TwilioOutbound::Media {
        media: OutboundMediaMeta { payload: re_encoded },
        stream_sid: stream_sid.to_string(),
    }
}

/// Prepares the message for Twilio that plays a Google TTS payload.
pub fn google2twilio(google_tts: String, stream_sid: &str) -> (msg: TwilioOutbound)
    requires
        is_google_tts(google_tts@),
    ensures
        plays(msg, b64_bytes(google_tts@).skip(GOOGLE_WAV_HEADER_SZ as int), stream_sid@),
{
    let mut body: Vec<u8> = Vec::new();
    b64_decode_to_buf(google_tts, &mut body);
    assert(body@ =~= b64_bytes(google_tts@));
    media_message(&body, stream_sid)
}

/// Prepares the message as `google2twilio` does; `None` where the payload is not base64 or is
/// shorter than the header.
pub fn try_google2twilio(google_tts: String, stream_sid: &str) -> (msg: Option<TwilioOutbound>)
    ensures
        msg is Some == is_google_tts(google_tts@),
        msg matches Some(m) ==> plays(
            m,
            b64_bytes(google_tts@).skip(GOOGLE_WAV_HEADER_SZ as int),
            stream_sid@,
        ),
{
    if has_google_header(google_tts.as_str()) {
        Some(google2twilio(google_tts, stream_sid))
    } else {
        None
    }
}

} // verus!
