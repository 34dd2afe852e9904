//! The pluggable byte-codec layer: a decoder turns received bytes into a
//! typed value, an encoder writes a typed value into a reusable growable
//! buffer.
//!
//! Codecs are opaque to the retry policy: their errors are caller-defined,
//! classified as non-fatal, and never retried — retrying would reprocess the
//! same bytes and reproduce the same failure.  Each codec describes its own
//! behaviour through a relation (`decode_post`, `encode_post`) that its
//! implementation must satisfy.
use vstd::prelude::*;

verus! {

/// Decodes received payload bytes into a typed value.  A decoder may be
/// stateful; `decode_post` relates one call's input to the decoder's next
/// state and the call's result.
pub trait Decoder<M>: Sized {
    type Error;

    /// The relation one `decode` call satisfies: from state `self` on input
    /// `data`, the decoder may move to state `next` and return `r`.  The
    /// default claims nothing; a codec overrides it with what its decoding
    /// guarantees.
    open spec fn decode_post(&self, data: Seq<u8>, next: Self, r: Result<M, Self::Error>) -> bool {
        true
    }

    fn decode(&mut self, data: &[u8]) -> (r: Result<M, Self::Error>)
        ensures
            old(self).decode_post(data@, *final(self), r),
    ;
}

/// Encodes a typed value by appending its byte representation to a buffer.
/// An encoder may be stateful; `encode_post` relates one call's input to the
/// encoder's next state, the bytes appended, and the call's result.
pub trait Encoder<V>: Sized {
    type Error;

    /// The relation one `encode` call satisfies: from state `self` on value
    /// `value`, the encoder may move to state `next`, append `appended` to
    /// the buffer, and return `r`.  The default claims nothing; a codec
    /// overrides it with what its encoding guarantees.
    open spec fn encode_post(
        &self,
        value: V,
        next: Self,
        appended: Seq<u8>,
        r: Result<(), Self::Error>,
    ) -> bool {
        true
    }

    fn encode(&mut self, value: &V, buf: &mut Vec<u8>) -> (r: Result<(), Self::Error>)
        ensures
            old(buf)@.is_prefix_of(final(buf)@),
            old(self).encode_post(
                *value,
                *final(self),
                final(buf)@.skip(old(buf)@.len() as int),
                r,
            ),
    ;
}

/// The trivial identity codec on raw bytes: decoding returns the received
/// bytes unchanged, encoding appends the value's bytes unchanged.  Neither
/// direction can fail.
#[derive(Debug, Clone, Copy, PartialEq, Eq, Structural, Default)]
pub struct BytesCodec;

impl Decoder<Vec<u8>> for BytesCodec {
    type Error = ();

    /// Decoding always succeeds and returns exactly the input bytes.
    open spec fn decode_post(
        &self,
        data: Seq<u8>,
        next: Self,
        r: Result<Vec<u8>, ()>,
    ) -> bool {
        r matches Ok(v) && v@ == data
    }

    fn decode(&mut self, data: &[u8]) -> (r: Result<Vec<u8>, ()>) {
        Ok(vstd::slice::slice_to_vec(data))
    }
}

impl Encoder<Vec<u8>> for BytesCodec {
    type Error = ();

    /// Encoding always succeeds and appends exactly the value's bytes.
    open spec fn encode_post(
        &self,
        value: Vec<u8>,
        next: Self,
        appended: Seq<u8>,
        r: Result<(), ()>,
    ) -> bool {
        r is Ok && appended == value@
    }

    fn encode(&mut self, value: &Vec<u8>, buf: &mut Vec<u8>) -> (r: Result<(), ()>) {
        buf.extend_from_slice(value.as_slice());
        proof {
            assert(buf@ =~= old(buf)@ + value@);
            assert(buf@.skip(old(buf)@.len() as int) =~= value@);
        }
        Ok(())
    }
}

/// Through the identity codec, an encoded payload decodes back to the very
/// bytes that were encoded: one half of the lossless round trip of a
/// message, the other half being the field-wise pass-through of the
/// envelope.
pub proof fn lemma_bytes_codec_round_trip(
    enc: BytesCodec,
    enc_next: BytesCodec,
    value: Vec<u8>,
    appended: Seq<u8>,
    dec: BytesCodec,
    dec_next: BytesCodec,
    decoded: Result<Vec<u8>, ()>,
)
    requires
        enc.encode_post(value, enc_next, appended, Ok(())),
        dec.decode_post(appended, dec_next, decoded),
    ensures
        decoded matches Ok(v) && v@ == value@,
{
}

} // verus!
