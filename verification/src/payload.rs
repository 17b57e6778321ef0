//! Payloads sent from the device.
//!
//! A payload is mainly used to transfer an image, but also meta data of the
//! image. See [`Payload`] and [`ImageInfo`].

use vstd::prelude::*;
use std::sync::mpsc::Sender;
use std::time::Duration;

verus! {

/// Represents the payload type of the image.
#[derive(Clone, Copy, Debug, PartialEq, Eq, Structural)]
pub enum PayloadType {
    /// Payload contains just an image data only.
    Image,
    /// Payload contains multiple data chunks, and its first chunk is an image.
    ImageExtendedChunk,
    /// Payload contains multiple data chunks, no guarantee about its first chunk.
    Chunk,
}

/// A pixel format, by its `PFNC` code.
#[derive(Clone, Copy, Debug, PartialEq, Eq, Structural)]
pub struct PixelFormat {
    pub code: u32,
}

/// Image meta information.
#[derive(Clone, Copy, Debug, PartialEq, Eq, Structural)]
pub struct ImageInfo {
    /// Width of the image.
    pub width: usize,
    /// Height of the image.
    pub height: usize,
    /// X offset in pixels from the whole image origin.
    pub x_offset: usize,
    /// Y offset in pixels from the whole image origin.
    pub y_offset: usize,
    /// Pixel format of the image.
    pub pixel_format: PixelFormat,
    /// Size of image in bytes.
    pub image_size: usize,
}

#[verifier::external_type_specification]
#[verifier::external_body]
#[verifier::reject_recursive_types(T)]
pub struct ExSender<T>(Sender<T>);

/// A payload sent from the device.
#[derive(Debug, PartialEq, Eq)]
pub struct Payload {
    pub(crate) id: u64,
    pub(crate) payload_type: PayloadType,
    pub(crate) image_info: Option<ImageInfo>,
    pub(crate) payload: Vec<u8>,
    pub(crate) valid_payload_size: usize,
    /// Device timestamp in nanoseconds.
    pub(crate) timestamp: u64,
}

/// What a payload holds, for contracts.
pub ghost struct PayloadView {
    pub id: u64,
    pub payload_type: PayloadType,
    pub image_info: Option<ImageInfo>,
    pub payload: Seq<u8>,
    pub valid_payload_size: usize,
    pub timestamp: u64,
}

impl View for Payload {
    type V = PayloadView;

    closed spec fn view(&self) -> PayloadView {
        PayloadView {
            id: self.id,
            payload_type: self.payload_type,
            image_info: self.image_info,
            payload: self.payload@,
            valid_payload_size: self.valid_payload_size,
            timestamp: self.timestamp,
        }
    }
}

/// Sends a buffer back to the streaming loop, ignoring a dropped receiver
/// (`std::sync::mpsc::Sender::send`); nothing is stated, as delivery
/// depends on the receiving side.
#[verifier::external_body]
fn send_buffer(reuse_tx: &Sender<Vec<u8>>, buf: Vec<u8>) {
    let _ = reuse_tx.send(buf);
}

/// The duration `Duration::from_nanos(nanos)`.
pub uninterp spec fn nanos_duration(nanos: u64) -> Duration;

/// `std::time::Duration::from_nanos`: the result is named
/// [`nanos_duration`] of the argument; nothing more is stated of it.
#[verifier::external_body]
fn duration_from_nanos(nanos: u64) -> (r: Duration)
    ensures
        r == nanos_duration(nanos),
{
    Duration::from_nanos(nanos)
}

impl Clone for Payload {
    /// A payload with the same contents.
    fn clone(&self) -> (r: Payload)
        ensures
            r@ == self@,
    {
        proof {
            use_type_invariant(self);
        }
        Payload {
            id: self.id,
            payload_type: self.payload_type,
            image_info: self.image_info,
            payload: self.payload.clone(),
            valid_payload_size: self.valid_payload_size,
            timestamp: self.timestamp,
        }
    }
}

impl Payload {
    /// Assembles a payload from its parts.
    pub(crate) fn from_parts(
        id: u64,
        payload_type: PayloadType,
        image_info: Option<ImageInfo>,
        payload: Vec<u8>,
        valid_payload_size: usize,
        timestamp: u64,
    ) -> (r: Payload)
        requires
            valid_payload_size <= payload@.len(),
            image_info matches Some(info) ==> info.image_size <= payload@.len(),
        ensures
            r@ == (PayloadView {
                id,
                payload_type,
                image_info,
                payload: payload@,
                valid_payload_size,
                timestamp,
            }),
    {
        Payload { id, payload_type, image_info, payload, valid_payload_size, timestamp }
    }

    /// The payload's buffer holds the valid bytes and the image bytes.
    #[verifier::type_invariant]
    closed spec fn wf(self) -> bool {
        &&& self.valid_payload_size <= self.payload@.len()
        &&& (self.image_info matches Some(info) ==> info.image_size <= self.payload@.len())
    }

    /// Returns the payload type of the payload.
    pub fn payload_type(&self) -> (r: PayloadType)
        ensures
            r == self@.payload_type,
    {
        self.payload_type
    }

    /// Returns the image information if the payload carries an image.
    pub fn image_info(&self) -> (r: Option<&ImageInfo>)
        ensures
            match self@.image_info {
                None => r is None,
                Some(info) => r == Some(&info),
            },
    {
        self.image_info.as_ref()
    }

    /// Returns the image bytes in the payload if the payload carries an image.
    pub fn image(&self) -> (r: Option<&[u8]>)
        ensures
            match self@.image_info {
                None => r is None,
                Some(info) => r matches Some(s) && s@ == self@.payload.subrange(0, info.image_size as int),
            },
    {
        proof {
            use_type_invariant(self);
        }
        match &self.image_info {
            None => None,
            Some(info) => Some(&self.payload.as_slice()[0..info.image_size]),
        }
    }

    /// Returns the valid bytes of the payload.
    pub fn payload(&self) -> (r: &[u8])
        ensures
            r@ == self@.payload.subrange(0, self@.valid_payload_size as int),
    {
        proof {
            use_type_invariant(self);
        }
        &self.payload.as_slice()[0..self.valid_payload_size]
    }

    /// Consumes the payload and returns its buffer so that it can be reused by
    /// the streaming loop.
    pub fn into_reuse_buffer(self) -> (r: Vec<u8>)
        ensures
            r@ == self@.payload,
    {
        self.payload
    }

    /// Sends the buffer back to the streaming loop; a dropped receiver is
    /// ignored.
    pub fn return_buffer(self, reuse_tx: &Sender<Vec<u8>>) {
        let buf = self.into_reuse_buffer();
        send_buffer(reuse_tx, buf);
    }

    /// Returns the id of the payload, which the device increments with every
    /// payload it sends.
    pub fn id(&self) -> (r: u64)
        ensures
            r == self@.id,
    {
        self.id
    }

    /// Device timestamp of the payload, in nanoseconds.
    pub fn timestamp_nanos(&self) -> (r: u64)
        ensures
            r == self@.timestamp,
    {
        self.timestamp
    }

    /// Timestamp of the device when the payload was generated.
    pub fn timestamp(&self) -> (r: Duration)
        ensures
            r == nanos_duration(self@.timestamp),
    {
        duration_from_nanos(self.timestamp)
    }

    /// Returns the valid bytes of the payload as a vector.
    pub fn into_vec(self) -> (r: Vec<u8>)
        ensures
            r@ == self@.payload.subrange(0, self@.valid_payload_size as int),
    {
        proof {
            use_type_invariant(&self);
        }
        let valid = self.valid_payload_size;
        let mut payload = self.payload;
        payload.truncate(valid);
        payload
    }
}

} // verus!
