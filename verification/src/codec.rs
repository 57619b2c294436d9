//! Picking the video codec out of what an offer lists.
//!
//! An offer lists, for each media line, the formats it can carry; a format
//! of an RTP media line is a payload type written in decimal. Elsewhere the
//! offer maps payload types to codecs. The session sends VP8, so the codec
//! to register is the first listed format that is a payload type mapped to
//! VP8.
//!
//! [`find_codec`] reads a parsed session description; [`select_codec`] is
//! the choice itself, on the formats with the codecs they are mapped to.
use vstd::prelude::*;
use vstd::string::StrSliceExecFns;

verus! {

/// `webrtc::sdp::SessionDescription`: a parsed session description. The
/// library reads it through [`listed_formats`] and [`mapped_codecs`] only.
#[verifier::external_type_specification]
#[verifier::external_body]
pub struct ExSessionDescription(webrtc::sdp::SessionDescription);

/// The formats that the media lines of a session description list, in the
/// order of the description.
pub uninterp spec fn listed_formats(desc: webrtc::sdp::SessionDescription) -> Seq<Seq<char>>;

/// The names of the codecs that a session description maps payload types
/// to.
pub uninterp spec fn mapped_codecs(desc: webrtc::sdp::SessionDescription) -> Map<u8, Seq<char>>;

/// Reads `media_name.formats` of each of the `media_descriptions` of a
/// `webrtc::sdp::SessionDescription`, in order. The contract gives the list
/// its name.
#[verifier::external_body]
fn formats_of(desc: &webrtc::sdp::SessionDescription) -> (formats: Vec<String>)
    ensures
        formats.deep_view() == listed_formats(*desc),
{
    desc.media_descriptions.iter().flat_map(|md| md.media_name.formats.iter().cloned()).collect()
}

/// `webrtc::sdp::SessionDescription::get_codec_for_payload_type`: the codec
/// that the description maps a payload type to, of which the library keeps
/// the name. The description holds one codec at most for a payload type;
/// the contract gives that mapping its name.
#[verifier::external_body]
fn codec_name_for(desc: &webrtc::sdp::SessionDescription, payload_type: u8) -> (name: Option<
    String,
>)
    ensures
        match name {
            Some(n) => mapped_codecs(*desc).contains_key(payload_type) && mapped_codecs(
                *desc,
            )[payload_type] == n@,
            None => !mapped_codecs(*desc).contains_key(payload_type),
        },
{
    desc.get_codec_for_payload_type(payload_type).ok().map(|codec| codec.name)
}

/// A format that an offer lists, with the name of the codec that the offer
/// maps it to, if the format is a payload type and the offer maps it.
#[derive(Debug, PartialEq, Eq)]
pub struct OfferedFormat {
    /// The format, as the offer spells it.
    pub format: String,
    /// The name of the codec, as the offer spells it.
    pub codec: Option<String>,
}

/// [`OfferedFormat`] with its strings as sequences.
pub ghost struct OfferedFormatView {
    pub format: Seq<char>,
    pub codec: Option<Seq<char>>,
}

impl DeepView for OfferedFormat {
    type V = OfferedFormatView;

    open spec fn deep_view(&self) -> OfferedFormatView {
        OfferedFormatView {
            format: self.format@,
            codec: match self.codec {
                Some(name) => Some(name@),
                None => None,
            },
        }
    }
}

/// The codec for the engine to register.
#[derive(Debug, PartialEq, Eq)]
pub struct CodecParameters {
    /// The media type of the codec.
    pub mime_type: String,
    /// The payload type that the peer uses for it.
    pub payload_type: u8,
    /// The identifier under which the engine reports statistics.
    pub stats_id: String,
}

/// Whether `c` is an ASCII decimal digit.
pub open spec fn is_digit(c: char) -> bool {
    '0' <= c && c <= '9'
}

/// The number that a string of decimal digits writes.
pub open spec fn decimal_value(digits: Seq<char>) -> int
    decreases digits.len(),
{
    if digits.len() == 0 {
        0
    } else {
        decimal_value(digits.drop_last()) * 10 + (digits.last() as int - '0' as int)
    }
}

/// Whether `digits` holds decimal digits only.
pub open spec fn all_digits(digits: Seq<char>) -> bool {
    forall|i: int| 0 <= i < digits.len() ==> is_digit(#[trigger] digits[i])
}

/// `format` without the plus sign that may lead it.
pub open spec fn unsigned_part(format: Seq<char>) -> Seq<char> {
    if format.len() > 0 && format[0] == '+' {
        format.drop_first()
    } else {
        format
    }
}

/// The payload type that a format writes, if it writes one: an optional
/// plus sign, then one or more decimal digits, of a value that fits eight
/// bits.
pub open spec fn payload_type_of(format: Seq<char>) -> Option<u8> {
    let digits = unsigned_part(format);
    if digits.len() > 0 && all_digits(digits) && decimal_value(digits) <= 255 {
        Some(decimal_value(digits) as u8)
    } else {
        None
    }
}

/// The payload type of VP8 that an offered format stands for, if it stands
/// for one: the format is a payload type and the offer maps it to the codec
/// named `VP8`.
pub open spec fn vp8_payload(offered: OfferedFormatView) -> Option<u8> {
    match payload_type_of(offered.format) {
        Some(payload_type) => if offered.codec == Some("VP8"@) {
            Some(payload_type)
        } else {
            None
        },
        None => None,
    }
}

/// The payload type of the first offered format that stands for VP8.
pub open spec fn first_vp8(offered: Seq<OfferedFormatView>) -> Option<u8>
    decreases offered.len(),
{
    if offered.len() == 0 {
        None
    } else {
        match vp8_payload(offered.first()) {
            Some(payload_type) => Some(payload_type),
            None => first_vp8(offered.drop_first()),
        }
    }
}

/// A listed format with the codec that the description maps it to.
pub open spec fn offered_format(
    format: Seq<char>,
    codecs: Map<u8, Seq<char>>,
) -> OfferedFormatView {
    OfferedFormatView {
        format,
        codec: match payload_type_of(format) {
            Some(payload_type) => if codecs.contains_key(payload_type) {
                Some(codecs[payload_type])
            } else {
                None
            },
            None => None,
        },
    }
}

/// The formats that a session description lists, each with the codec that
/// the description maps it to.
pub open spec fn offered_formats(desc: webrtc::sdp::SessionDescription) -> Seq<
    OfferedFormatView,
> {
    listed_formats(desc).map_values(|format: Seq<char>| offered_format(format, mapped_codecs(desc)))
}

/// A number does not shrink as digits are appended to it.
proof fn lemma_decimal_value_grows(digits: Seq<char>, k: int)
    requires
        0 <= k <= digits.len(),
        all_digits(digits),
    ensures
        0 <= decimal_value(digits.take(k)) <= decimal_value(digits),
    decreases digits.len(),
{
    if digits.len() == 0 {
        assert(digits.take(k) =~= digits);
    } else if k == digits.len() {
        assert(digits.take(k) =~= digits);
        lemma_decimal_value_grows(digits.drop_last(), k - 1);
    } else {
        assert(digits.take(k) =~= digits.drop_last().take(k));
        lemma_decimal_value_grows(digits.drop_last(), k);
    }
}

/// Reads a format as a payload type.
pub fn parse_payload_type(format: &str) -> (r: Option<u8>)
    ensures
        r == payload_type_of(format@),
{
    let n: usize = format.unicode_len();
    if n == 0 {
        return None;
    }
    let start: usize = if format.get_char(0) == '+' {
        1
    } else {
        0
    };
    let ghost digits = format@.skip(start as int);
    assert(digits =~= unsigned_part(format@));
    if start == n {
        return None;
    }
    let mut value: u32 = 0;
    let mut i: usize = start;
    assert(digits.take(0) =~= Seq::<char>::empty());
    while i < n
        invariant
            start <= i <= n,
            n == format@.len(),
            digits == format@.skip(start as int),
            digits == unsigned_part(format@),
            all_digits(digits.take(i - start)),
            value == decimal_value(digits.take(i - start)),
            value <= 255,
        decreases n - i,
    {
        let c: char = format.get_char(i);
        assert(c == digits[i - start]);
        if !(c >= '0' && c <= '9') {
            assert(!is_digit(digits[i - start]));
            return None;
        }
        let digit: u32 = c as u32 - 48;
        proof {
            let next = digits.take(i - start + 1);
            assert(next.drop_last() =~= digits.take(i - start));
            assert(next.last() == c);
            assert(decimal_value(next) == value * 10 + digit);
            assert forall|j: int| 0 <= j < next.len() implies is_digit(#[trigger] next[j]) by {
                if j < i - start {
                    assert(next[j] == digits.take(i - start)[j]);
                }
            }
        }
        if value * 10 + digit > 255 {
            proof {
                if all_digits(digits) {
                    lemma_decimal_value_grows(digits, i - start + 1);
                }
            }
            return None;
        }
        value = value * 10 + digit;
        i += 1;
    }
    assert(digits.take(n - start) =~= digits);
    Some(value as u8)
}

/// The codec to register for an offer.
pub open spec fn vp8_parameters(found: CodecParameters, payload_type: u8) -> bool {
    &&& found.payload_type == payload_type
    &&& found.mime_type@ == "video/VP8"@
    &&& found.stats_id@ == "Hello123"@
}

/// Chooses the codec to register: the first of the offered formats, in the
/// order the offer lists them, that is a payload type mapped to VP8. There
/// is none when the offer lists no such format.
pub fn select_codec(offered: &Vec<OfferedFormat>) -> (r: Option<CodecParameters>)
    ensures
        match r {
            Some(found) => first_vp8(offered.deep_view()) matches Some(payload_type)
                && vp8_parameters(found, payload_type),
            None => first_vp8(offered.deep_view()) is None,
        },
{
    let vp8: String = "VP8".to_owned();
    let ghost all = offered.deep_view();
    let mut i: usize = 0;
    assert(all.skip(0) =~= all);
    while i < offered.len()
        invariant
            i <= offered@.len(),
            all == offered.deep_view(),
            all.len() == offered@.len(),
            vp8@ == "VP8"@,
            first_vp8(all) == first_vp8(all.skip(i as int)),
        decreases offered@.len() - i,
    {
        let ghost tail = all.skip(i as int);
        assert(tail.first() == offered@[i as int].deep_view());
        assert(tail.drop_first() =~= all.skip(i as int + 1));
        if let Some(payload_type) = parse_payload_type(offered[i].format.as_str()) {
            let named = match &offered[i].codec {
                Some(name) => *name == vp8,
                None => false,
            };
            if named {
                return Some(
                    CodecParameters {
                        mime_type: "video/VP8".to_owned(),
                        payload_type,
                        stats_id: "Hello123".to_owned(),
                    },
                );
            }
        }
        i += 1;
    }
    None
}

/// Finds the codec to register for an offer: the first format that the
/// description lists which is a payload type that the description maps to
/// VP8. There is none when the offer lists no such format.
pub fn find_codec(desc: &webrtc::sdp::SessionDescription) -> (r: Option<CodecParameters>)
    ensures
        match r {
            Some(found) => first_vp8(offered_formats(*desc)) matches Some(payload_type)
                && vp8_parameters(found, payload_type),
            None => first_vp8(offered_formats(*desc)) is None,
        },
{
    let formats = formats_of(desc);
    let ghost want = offered_formats(*desc);
    let mut offered: Vec<OfferedFormat> = Vec::new();
    let mut i: usize = 0;
    while i < formats.len()
        invariant
            i <= formats@.len(),
            formats.deep_view() == listed_formats(*desc),
            want == offered_formats(*desc),
            offered@.len() == i,
            forall|j: int| 0 <= j < i ==> (#[trigger] offered@[j]).deep_view() == want[j],
        decreases formats@.len() - i,
    {
        assert(formats.deep_view()[i as int] == formats@[i as int]@);
        let codec = match parse_payload_type(formats[i].as_str()) {
            Some(payload_type) => codec_name_for(desc, payload_type),
            None => None,
        };
        offered.push(OfferedFormat { format: formats[i].clone(), codec });
        i += 1;
    }
    assert(offered.deep_view() =~= want);
    select_codec(&offered)
}

} // verus!
