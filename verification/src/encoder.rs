//! The bookkeeping of the encoding pipeline around a block-based compressor.
//!
//! One frame passes through the pipeline in three steps. [`Encoder::prepare`]
//! converts the pixels and stamps them with the presentation timestamp. The
//! driver hands that frame to the compressor, which answers with zero or more
//! packets. [`Encoder::finish`] joins the packets in the order they came and
//! advances the timestamp by the frame's duration. [`Encoder::encode`] does
//! the three in one call, for a driver that can lend its compressor.
use crate::convert::{argb_to_i420, chroma_dim, frame_fits, i420, i420_len};
use crate::error::SessionError;
use vstd::prelude::*;

verus! {

/// The codec that the compressor is set up for. Sessions negotiate one
/// video codec and no other.
#[derive(Clone, Copy, Debug, PartialEq, Eq, Structural)]
pub enum VideoCodec {
    Vp8,
}

/// How the compressor is configured for the lifetime of a pipeline.
#[derive(Clone, Copy, Debug, PartialEq, Eq, Structural)]
pub struct EncoderConfig {
    /// Frame width in pixels.
    pub width: u32,
    /// Frame height in pixels.
    pub height: u32,
    /// Numerator of the timebase, in seconds.
    pub timebase_num: i32,
    /// Denominator of the timebase, in seconds.
    pub timebase_den: i32,
    /// Target bitrate.
    pub bitrate: u32,
    /// The codec.
    pub codec: VideoCodec,
}

/// The target bitrate of every pipeline.
pub const BITRATE: u32 = 5 * 1024 * 1024;

/// The timebase denominator of every pipeline: sixty units to a second.
pub const TIMEBASE_DEN: i32 = 60;

/// The configuration of the compressor of a pipeline for `width` by `height`
/// frames: the fixed bitrate, a timebase of a sixtieth of a second, VP8.
pub open spec fn pipeline_config(width: u32, height: u32) -> EncoderConfig {
    EncoderConfig {
        width,
        height,
        timebase_num: 1,
        timebase_den: TIMEBASE_DEN,
        bitrate: BITRATE,
        codec: VideoCodec::Vp8,
    }
}

/// One converted frame, ready for the compressor.
#[derive(Debug, PartialEq, Eq)]
pub struct RawFrame {
    /// The presentation timestamp of the frame.
    pub pts: i64,
    /// The planar samples: luma, then U, then V.
    pub planes: Vec<u8>,
}

/// A block-based compressor takes frames whose width and height are positive
/// and even.
pub open spec fn valid_dimensions(width: u32, height: u32) -> bool {
    width > 0 && height > 0 && width % 2 == 0 && height % 2 == 0
}

/// The bytes of each packet, in order.
pub open spec fn packet_bytes(packets: Seq<Vec<u8>>) -> Seq<Seq<u8>> {
    packets.map_values(|p: Vec<u8>| p@)
}

/// The packets joined end to end, in order.
pub open spec fn joined(packets: Seq<Seq<u8>>) -> Seq<u8> {
    packets.flatten()
}

/// The state of one encoding pipeline: the frame size it was built for and
/// the presentation timestamp of the next frame.
#[derive(Debug)]
pub struct Encoder {
    width: u32,
    height: u32,
    pts: i64,
}

impl Encoder {
    #[verifier::type_invariant]
    spec fn well_formed(self) -> bool {
        valid_dimensions(self.width, self.height) && self.pts >= 0
    }

    /// The frame width in pixels.
    pub closed spec fn spec_width(&self) -> u32 {
        self.width
    }

    /// The frame height in pixels.
    pub closed spec fn spec_height(&self) -> u32 {
        self.height
    }

    /// The presentation timestamp that the next frame gets.
    pub closed spec fn spec_pts(&self) -> i64 {
        self.pts
    }

    /// Whether `pixels` is a frame of this pipeline's size.
    pub open spec fn accepts(&self, pixels: Seq<u8>) -> bool {
        frame_fits(pixels.len() as int, self.spec_width() as int, self.spec_height() as int)
    }

    /// Starts a pipeline for `width` by `height` frames, with the timestamp at
    /// zero. Dimensions that are zero or odd are refused.
    pub fn new(width: u32, height: u32) -> (r: Result<Encoder, SessionError>)
        ensures
            match r {
                Ok(e) => valid_dimensions(width, height) && e.spec_width() == width
                    && e.spec_height() == height && e.spec_pts() == 0,
                Err(e) => !valid_dimensions(width, height) && e == SessionError::Encoding,
            },
    {
        if width == 0 || height == 0 || width % 2 != 0 || height % 2 != 0 {
            Err(SessionError::Encoding)
        } else {
            Ok(Encoder { width, height, pts: 0 })
        }
    }

    /// The frame width in pixels, which is positive and even.
    #[verifier::when_used_as_spec(spec_width)]
    pub fn width(&self) -> (w: u32)
        ensures
            w == self.spec_width(),
            w > 0,
            w % 2 == 0,
    {
        proof {
            use_type_invariant(self);
        }
        self.width
    }

    /// The frame height in pixels, which is positive and even.
    #[verifier::when_used_as_spec(spec_height)]
    pub fn height(&self) -> (h: u32)
        ensures
            h == self.spec_height(),
            h > 0,
            h % 2 == 0,
    {
        proof {
            use_type_invariant(self);
        }
        self.height
    }

    /// The presentation timestamp that the next frame gets. It is never
    /// negative.
    #[verifier::when_used_as_spec(spec_pts)]
    pub fn pts(&self) -> (pts: i64)
        ensures
            pts == self.spec_pts(),
            pts >= 0,
    {
        proof {
            use_type_invariant(self);
        }
        self.pts
    }

    /// The configuration that the compressor of this pipeline is built with.
    pub fn config(&self) -> (c: EncoderConfig)
        ensures
            c == pipeline_config(self.spec_width(), self.spec_height()),
    {
        EncoderConfig {
            width: self.width,
            height: self.height,
            timebase_num: 1,
            timebase_den: TIMEBASE_DEN,
            bitrate: BITRATE,
            codec: VideoCodec::Vp8,
        }
    }

    /// Converts one frame for the compressor and stamps it with the current
    /// timestamp. A buffer that is not a whole number of rows, or whose rows
    /// are too short for the frame width, is refused.
    pub fn prepare(&self, bgra_pixels: &[u8]) -> (r: Result<RawFrame, SessionError>)
        ensures
            match r {
                Ok(frame) => {
                    &&& self.accepts(bgra_pixels@)
                    &&& frame.pts == self.spec_pts()
                    &&& frame.planes@ == i420(
                        bgra_pixels@,
                        self.spec_width() as int,
                        self.spec_height() as int,
                    )
                    &&& 2 * frame.planes@.len() == 3 * (self.spec_width() * self.spec_height())
                },
                Err(e) => !self.accepts(bgra_pixels@) && e == SessionError::Encoding,
            },
    {
        proof {
            use_type_invariant(self);
        }
        let len: usize = bgra_pixels.len();
        let height: usize = self.height as usize;
        if len % height != 0 || ((len / height) as u64) < 4 * (self.width as u64) {
            return Err(SessionError::Encoding);
        }
        let mut planes: Vec<u8> = Vec::new();
        argb_to_i420(self.width as usize, height, bgra_pixels, &mut planes);
        proof {
            let w = self.width as int;
            let h = self.height as int;
            assert(chroma_dim(w) * 2 == w && chroma_dim(h) * 2 == h);
            assert(4 * (chroma_dim(w) * chroma_dim(h)) == w * h) by (nonlinear_arith)
                requires
                    chroma_dim(w) * 2 == w,
                    chroma_dim(h) * 2 == h,
            ;
            assert(planes@.len() == i420_len(w, h));
        }
        Ok(RawFrame { pts: self.pts, planes })
    }

    /// Joins the packets that the compressor emitted for one frame, in the
    /// order they were emitted, and advances the timestamp by `duration_ms`.
    /// When the timestamp cannot advance that far, the pipeline has failed and
    /// stays as it was.
    pub fn finish(&mut self, packets: &Vec<Vec<u8>>, duration_ms: u64) -> (r: Result<
        Vec<u8>,
        SessionError,
    >)
        ensures
            final(self).spec_width() == old(self).spec_width(),
            final(self).spec_height() == old(self).spec_height(),
            final(self).spec_pts() >= old(self).spec_pts(),
            match r {
                Ok(payload) => {
                    &&& old(self).spec_pts() + duration_ms <= i64::MAX
                    &&& final(self).spec_pts() == old(self).spec_pts() + duration_ms
                    &&& payload@ == joined(packet_bytes(packets@))
                },
                Err(e) => {
                    &&& old(self).spec_pts() + duration_ms > i64::MAX
                    &&& final(self).spec_pts() == old(self).spec_pts()
                    &&& e == SessionError::Encoding
                },
            },
    {
        proof {
            use_type_invariant(&*self);
        }
        if duration_ms > (i64::MAX - self.pts) as u64 {
            return Err(SessionError::Encoding);
        }
        let payload = join_packets(packets);
        self.pts = self.pts + duration_ms as i64;
        Ok(payload)
    }

    /// Encodes one frame: converts it, has `compress` compress it, joins the
    /// packets and advances the timestamp by `duration_ms`. `compress`
    /// answers `None` when the compressor fails. A refused buffer, a failed
    /// compressor and a timestamp that cannot advance each fail the
    /// pipeline, which then stays as it was.
    pub fn encode<F: FnOnce(&RawFrame) -> Option<Vec<Vec<u8>>>>(
        &mut self,
        bgra_pixels: &[u8],
        duration_ms: u64,
        compress: F,
    ) -> (r: Result<Vec<u8>, SessionError>)
        requires
            forall|frame: &RawFrame| call_requires(compress, (frame,)),
        ensures
            final(self).spec_width() == old(self).spec_width(),
            final(self).spec_height() == old(self).spec_height(),
            match r {
                Ok(payload) => {
                    &&& old(self).accepts(bgra_pixels@)
                    &&& old(self).spec_pts() + duration_ms <= i64::MAX
                    &&& final(self).spec_pts() == old(self).spec_pts() + duration_ms
                    &&& exists|frame: &RawFrame, packets: Vec<Vec<u8>>|
                        {
                            &&& #[trigger] call_ensures(compress, (frame,), Some(packets))
                            &&& frame.pts == old(self).spec_pts()
                            &&& frame.planes@ == i420(
                                bgra_pixels@,
                                old(self).spec_width() as int,
                                old(self).spec_height() as int,
                            )
                            &&& payload@ == joined(packet_bytes(packets@))
                        }
                },
                Err(e) => {
                    &&& e == SessionError::Encoding
                    &&& final(self).spec_pts() == old(self).spec_pts()
                    &&& {
                        ||| !old(self).accepts(bgra_pixels@)
                        ||| old(self).spec_pts() + duration_ms > i64::MAX
                        ||| exists|frame: &RawFrame|
                            {
                                &&& #[trigger] call_ensures(compress, (frame,), None)
                                &&& frame.pts == old(self).spec_pts()
                                &&& frame.planes@ == i420(
                                    bgra_pixels@,
                                    old(self).spec_width() as int,
                                    old(self).spec_height() as int,
                                )
                            }
                    }
                },
            },
            !old(self).accepts(bgra_pixels@) ==> r is Err,
            old(self).spec_pts() + duration_ms > i64::MAX ==> r is Err,
    {
        let frame = match self.prepare(bgra_pixels) {
            Ok(frame) => frame,
            Err(e) => return Err(e),
        };
        match compress(&frame) {
            Some(packets) => self.finish(&packets, duration_ms),
            None => Err(SessionError::Encoding),
        }
    }
}

/// Joins `packets` end to end, in order.
pub fn join_packets(packets: &Vec<Vec<u8>>) -> (payload: Vec<u8>)
    ensures
        payload@ == joined(packet_bytes(packets@)),
{
    let ghost all = packet_bytes(packets@);
    let mut payload: Vec<u8> = Vec::new();
    let mut i: usize = 0;
    assert(all.take(0) =~= Seq::<Seq<u8>>::empty());
    while i < packets.len()
        invariant
            i <= packets@.len(),
            all == packet_bytes(packets@),
            payload@ == joined(all.take(i as int)),
        decreases packets@.len() - i,
    {
        let ghost before = payload@;
        payload.extend_from_slice(packets[i].as_slice());
        proof {
            assert(payload@ =~= before + packets@[i as int]@);
            assert(all.take(i as int + 1) =~= all.take(i as int).push(all[i as int]));
            all.take(i as int).lemma_flatten_push(all[i as int]);
        }
        i += 1;
    }
    assert(all.take(packets@.len() as int) =~= all);
    payload
}

/// Joined packets have no bytes exactly when every packet is empty: one
/// non-empty packet is enough for a non-empty payload.
pub proof fn lemma_joined_empty(packets: Seq<Seq<u8>>)
    ensures
        joined(packets).len() == 0 <==> (forall|i: int|
            0 <= i < packets.len() ==> (#[trigger] packets[i]).len() == 0),
    decreases packets.len(),
{
    if packets.len() > 0 {
        let rest = packets.drop_first();
        lemma_joined_empty(rest);
        assert(joined(packets) =~= packets.first() + joined(rest));
        assert forall|i: int| 0 <= i < rest.len() implies rest[i] == packets[i + 1] by {}
        if joined(packets).len() == 0 {
            assert forall|i: int| 0 <= i < packets.len() implies (#[trigger] packets[i]).len()
                == 0 by {
                if i > 0 {
                    assert(packets[i] == rest[i - 1]);
                }
            }
        }
    }
}

} // verus!
