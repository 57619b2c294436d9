//! A sans-I/O core for streaming encoded video to one peer.
//!
//! The crate holds the decisions of a media session and none of its I/O:
//!
//! * [`convert`] turns a packed blue-green-red-alpha frame into planar
//!   luma and chroma samples;
//! * [`encoder`] is the bookkeeping around a block-based compressor: it
//!   hands the compressor planar frames with a presentation timestamp and
//!   joins the packets that come back;
//! * [`clock`] relates the driver's clock, media time and the media clock on
//!   the wire;
//! * [`pump`] is the loop of a running session, as a state machine from an
//!   event to the next action;
//! * [`factory`] accepts an offer and sequences the set-up of a session;
//! * [`hostaddr`] picks the address that a session advertises;
//! * [`codec`] picks the video codec out of the formats that a session
//!   description lists;
//! * [`source`] makes frames of one colour, a stand-in for a camera.
//!
//! A driver owns the socket, the clock, the compressor and the negotiation
//! engine. It performs each action and reports what happened as the next
//! event.
pub mod clock;
pub mod codec;
pub mod convert;
pub mod encoder;
pub mod error;
pub mod factory;
pub mod hostaddr;
pub mod pump;
pub mod source;
