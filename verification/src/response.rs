//! The decided response of a request, and the single-use handoff that
//! carries it from whichever code path produced it back to the request
//! handler.

use vstd::prelude::*;

verus! {

pub const STATUS_OK: u16 = 200;

pub const STATUS_BAD_REQUEST: u16 = 400;

pub const STATUS_INTERNAL_SERVER_ERROR: u16 = 500;

/// Where the bytes of a response body come from.
#[derive(Clone, Copy, Debug)]
pub enum BodySource {
    /// A fully buffered empty body.
    Empty,
    /// A stream read chunk by chunk from the cache file, `len` bytes long.
    CacheFile { len: u64 },
    /// A live stream forwarded chunk by chunk from the origin.
    LiveStream,
}

/// An HTTP response as the pipeline decides it: a status, the headers that
/// matter to the pipeline, and a body source. The transport layer turns
/// this into a wire response; the body keeps streaming independently of
/// the handoff's completion.
#[derive(Clone, Copy, Debug)]
pub struct PendingResponse {
    pub status: u16,
    /// The content-length header value, where it is known ahead of streaming.
    pub content_length: Option<u64>,
    /// Whether the fixed `image/png` content-type header is set. The hit
    /// path always reports this fixed type, whatever the origin declared
    /// when the file was written: there is no stored content type to replay.
    pub image_png_content_type: bool,
    pub body: BodySource,
}

impl PendingResponse {
    /// The hit response: status 200, the file's length, the fixed image
    /// content type, and a body streamed from the cache file.
    pub open spec fn spec_hit(len: u64) -> PendingResponse {
        PendingResponse {
            status: STATUS_OK,
            content_length: Some(len),
            image_png_content_type: true,
            body: BodySource::CacheFile { len },
        }
    }

    /// The rejection response for invalid origin content: status 400,
    /// empty body, no headers.
    pub open spec fn spec_bad_request() -> PendingResponse {
        PendingResponse {
            status: STATUS_BAD_REQUEST,
            content_length: None,
            image_png_content_type: false,
            body: BodySource::Empty,
        }
    }

    /// The internal failure response: status 500, empty body, no headers.
    pub open spec fn spec_internal_error() -> PendingResponse {
        PendingResponse {
            status: STATUS_INTERNAL_SERVER_ERROR,
            content_length: None,
            image_png_content_type: false,
            body: BodySource::Empty,
        }
    }

    /// The miss-path success response: status 200 with a live forwarding
    /// body, fired before the origin stream is consumed, so the headers
    /// decouple from full-body availability.
    pub open spec fn spec_streaming_ok() -> PendingResponse {
        PendingResponse {
            status: STATUS_OK,
            content_length: None,
            image_png_content_type: false,
            body: BodySource::LiveStream,
        }
    }

    /// Build the hit response for a cache file of `len` bytes.
    pub fn hit(len: u64) -> (r: PendingResponse)
        ensures
            r == Self::spec_hit(len),
    {
        PendingResponse {
            status: STATUS_OK,
            content_length: Some(len),
            image_png_content_type: true,
            body: BodySource::CacheFile { len },
        }
    }

    /// Build the rejection response for invalid origin content.
    pub fn bad_request() -> (r: PendingResponse)
        ensures
            r == Self::spec_bad_request(),
    {
        PendingResponse {
            status: STATUS_BAD_REQUEST,
            content_length: None,
            image_png_content_type: false,
            body: BodySource::Empty,
        }
    }

    /// Build the internal failure response.
    pub fn internal_error() -> (r: PendingResponse)
        ensures
            r == Self::spec_internal_error(),
    {
        PendingResponse {
            status: STATUS_INTERNAL_SERVER_ERROR,
            content_length: None,
            image_png_content_type: false,
            body: BodySource::Empty,
        }
    }

    /// Build the miss-path success response.
    pub fn streaming_ok() -> (r: PendingResponse)
        ensures
            r == Self::spec_streaming_ok(),
    {
        PendingResponse {
            status: STATUS_OK,
            content_length: None,
            image_png_content_type: false,
            body: BodySource::LiveStream,
        }
    }
}

/// The single-use, single-producer/single-consumer signal that delivers
/// the decided response to the request handler. For one request it fires
/// exactly once — `fire` demands that it has not fired yet — and the
/// response is taken exactly once.
pub struct Handoff {
    fired: bool,
    taken: bool,
    slot: Option<PendingResponse>,
}

impl Handoff {
    /// A response has been produced.
    pub closed spec fn spec_fired(self) -> bool {
        self.fired
    }

    /// The response has been consumed by the request handler.
    pub closed spec fn spec_taken(self) -> bool {
        self.taken
    }

    /// The response carried, once fired.
    pub closed spec fn spec_value(self) -> Option<PendingResponse> {
        self.slot
    }

    /// A value is present exactly from the moment the handoff fires, and
    /// it can only have been taken after it fired.
    pub closed spec fn wf(self) -> bool {
        &&& self.fired <==> self.slot is Some
        &&& self.taken ==> self.fired
    }

    /// A fresh handoff: not fired, not taken.
    pub fn new() -> (h: Handoff)
        ensures
            h.wf(),
            !h.spec_fired(),
            !h.spec_taken(),
    {
        Handoff { fired: false, taken: false, slot: None }
    }

    /// Deliver the decided response. A handoff fires at most once: firing
    /// demands that no response was delivered before.
    pub fn fire(&mut self, r: PendingResponse)
        requires
            old(self).wf(),
            !old(self).spec_fired(),
        ensures
            final(self).wf(),
            final(self).spec_fired(),
            !final(self).spec_taken(),
            final(self).spec_value() == Some(r),
    {
        self.fired = true;
        self.slot = Some(r);
    }

    /// Consume the delivered response, exactly once.
    pub fn take(&mut self) -> (r: PendingResponse)
        requires
            old(self).wf(),
            old(self).spec_fired(),
            !old(self).spec_taken(),
        ensures
            final(self).wf(),
            final(self).spec_fired(),
            final(self).spec_taken(),
            old(self).spec_value() == Some(r),
            final(self).spec_value() == old(self).spec_value(),
    {
        self.taken = true;
        self.slot.unwrap()
    }
}

} // verus!
