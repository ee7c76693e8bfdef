//! Decoding one received frame: the wire carries a JSON envelope, zero-padded
//! to the fixed receive-buffer size, that describes a raster and its
//! metadata. Trimming the padding is proved exact here; the JSON
//! deserialization, the raster conversion and the PNG encoding are calls
//! into outside crates behind trusted declarations.

use vstd::prelude::*;

use crate::errors::GcError;

verus! {

/// Whether the bytes deserialize into a generic-image envelope; a fixed
/// function of the bytes alone, named here and decided only by
/// `decode_trimmed`.
pub uninterp spec fn envelope_parse_ok(bytes: Seq<u8>) -> bool;

/// Whether the envelope the bytes hold carries a raster in a standard
/// displayable form that a PNG stream can represent; meaningful where
/// `envelope_parse_ok` holds of the bytes.
pub uninterp spec fn envelope_displayable(bytes: Seq<u8>) -> bool;

/// The PNG encoding of the raster the bytes hold; meaningful where the
/// envelope parses and its raster is displayable.
pub uninterp spec fn envelope_png(bytes: Seq<u8>) -> Seq<u8>;

/// Relies on `serde_json::from_slice` deserializing the bytes into a
/// `refimage::GenericImageOwned`, on refimage's `TryFrom<GenericImageOwned>`
/// for `image::DynamicImage`, and on `image::DynamicImage::write_to` with
/// the PNG format. Each step reads nothing but its argument, so success
/// and the encoded bytes are functions of the input bytes alone. Bytes
/// that do not deserialize are the protocol error. An envelope whose
/// raster has no displayable form a PNG stream can carry — a Bayer or
/// custom colour space, a grayscale or RGB float layout the encoder
/// refuses, or more than four channels — is the conversion error;
/// every deserialized raster is non-empty and exactly sized, so nothing
/// else can fail.
#[verifier::external_body]
fn decode_trimmed(bytes: &[u8]) -> (r: Result<Vec<u8>, GcError>)
    ensures
        r is Ok <==> (envelope_parse_ok(bytes@) && envelope_displayable(bytes@)),
        r is Ok ==> r->Ok_0@ == envelope_png(bytes@),
        r is Err ==> (r->Err_0 == GcError::ProtocolError <==> !envelope_parse_ok(bytes@)),
        r is Err ==> (r->Err_0 == GcError::ProtocolError || r->Err_0
            == GcError::FormatConversionError),
{
    let envelope: refimage::GenericImageOwned = match serde_json::from_slice(bytes) {
        Ok(envelope) => envelope,
        Err(_) => return Err(GcError::ProtocolError),
    };
    let img: image::DynamicImage = match envelope.try_into() {
        Ok(img) => img,
        Err(_) => return Err(GcError::FormatConversionError),
    };
    let mut data = std::io::Cursor::new(Vec::new());
    match img.write_to(&mut data, image::ImageFormat::Png) {
        Ok(()) => Ok(data.into_inner()),
        Err(_) => Err(GcError::FormatConversionError),
    }
}

/// The buffer with its trailing run of zero bytes removed.
pub open spec fn trimmed_view(s: Seq<u8>) -> Seq<u8>
    decreases s.len(),
{
    if s.len() == 0 {
        s
    } else if s.last() == 0 {
        trimmed_view(s.drop_last())
    } else {
        s
    }
}

/// A sequence that does not end in a zero byte is already trimmed.
pub proof fn lemma_trimmed_fixpoint(s: Seq<u8>)
    requires
        s.len() == 0 || s.last() != 0,
    ensures
        trimmed_view(s) == s,
{
}

/// Trimming removes exactly the padding: a message that does not itself
/// end in a zero byte comes back unchanged from under any amount of
/// trailing zero padding, so a document that ends before the buffer's
/// physical end loses nothing.
pub proof fn lemma_trim_removes_only_padding(message: Seq<u8>, padding: Seq<u8>)
    requires
        message.len() == 0 || message.last() != 0,
        forall|i: int| 0 <= i < padding.len() ==> padding[i] == 0,
    ensures
        trimmed_view(message + padding) == message,
    decreases padding.len(),
{
    if padding.len() == 0 {
        assert(message + padding =~= message);
        lemma_trimmed_fixpoint(message);
    } else {
        assert((message + padding).last() == padding[padding.len() - 1]);
        assert((message + padding).drop_last() =~= message + padding.drop_last());
        lemma_trim_removes_only_padding(message, padding.drop_last());
    }
}

/// Remove the trailing zero padding from a received buffer.
pub fn trim_trailing_nuls(buffer: &[u8]) -> (r: Vec<u8>)
    ensures
        r@ == trimmed_view(buffer@),
{
    let mut end: usize = buffer.len();
    proof {
        assert(buffer@.take(end as int) =~= buffer@);
    }
    while end > 0 && buffer[end - 1] == 0
        invariant
            end <= buffer@.len(),
            trimmed_view(buffer@) == trimmed_view(buffer@.take(end as int)),
        decreases end,
    {
        proof {
            assert(buffer@.take(end as int).last() == buffer@[end - 1]);
            assert(buffer@.take(end as int).drop_last() =~= buffer@.take(end - 1));
        }
        end = end - 1;
    }
    proof {
        if end > 0 {
            assert(buffer@.take(end as int).last() == buffer@[end - 1]);
        }
        lemma_trimmed_fixpoint(buffer@.take(end as int));
    }
    let mut r: Vec<u8> = Vec::new();
    let mut i: usize = 0;
    while i < end
        invariant
            i <= end <= buffer@.len(),
            r@ == buffer@.take(i as int),
        decreases end - i,
    {
        r.push(buffer[i]);
        proof {
            assert(buffer@.take(i + 1) =~= buffer@.take(i as int).push(buffer@[i as int]));
        }
        i = i + 1;
    }
    proof {
        assert(r@ =~= buffer@.take(end as int));
    }
    r
}

/// Decode one received envelope buffer into display-ready PNG bytes: trim
/// the zero padding, deserialize the JSON envelope, convert the raster to
/// a standard displayable form, and encode that as PNG. Success, and the
/// bytes it yields, are fixed by the trimmed document alone: bytes that do
/// not deserialize are a protocol failure, a raster with no displayable
/// PNG form is a conversion failure, and nothing else fails.
pub fn decode_envelope(buffer: &[u8]) -> (r: Result<Vec<u8>, GcError>)
    ensures
        r is Ok <==> envelope_parse_ok(trimmed_view(buffer@)) && envelope_displayable(
            trimmed_view(buffer@),
        ),
        r is Ok ==> r->Ok_0@ == envelope_png(trimmed_view(buffer@)),
        (r is Err && r->Err_0 == GcError::ProtocolError) <==> !envelope_parse_ok(
            trimmed_view(buffer@),
        ),
        r is Err ==> (r->Err_0 == GcError::ProtocolError || r->Err_0
            == GcError::FormatConversionError),
{
    let trimmed = trim_trailing_nuls(buffer);
    decode_trimmed(trimmed.as_slice())
}

} // verus!
