//! Classification of media payloads.
//!
//! An audio or video payload starts with a tag header of one to five bytes.
//! The header says what the payload is: a key frame, a sequence header, plain
//! data. Reading it is the work of the `xflv` crate; this module states what
//! that crate returns, byte by byte, so that the cache can be verified
//! against it.

use bytes::BytesMut;
use vstd::prelude::*;
use xflv::demuxer_tag::{AudioTagHeaderDemuxer, VideoTagHeaderDemuxer};
use xflv::errors::{FlvDemuxerError, MpegAacError, MpegAvcError};
use xflv::mpeg4_aac::Mpeg4AacProcessor;

use crate::buffer::{byte_at, bytes_of};

verus! {

#[verifier::external_type_specification]
#[verifier::external_body]
pub struct ExFlvDemuxerError(FlvDemuxerError);

#[verifier::external_type_specification]
#[verifier::external_body]
pub struct ExMpegAacError(MpegAacError);

#[verifier::external_type_specification]
#[verifier::external_body]
pub struct ExMpegAvcError(MpegAvcError);

/// Sound format of AAC audio.
pub const SOUND_FORMAT_AAC: u8 = 10;

/// AAC packet type of a sequence header.
pub const AAC_SEQHDR: u8 = 0;

/// Frame type of a key frame.
pub const KEY_FRAME: u8 = 1;

/// AVC packet type of a sequence header.
pub const AVC_SEQHDR: u8 = 0;

/// Codec id of H.264.
pub const CODEC_H264: u8 = 7;

/// Codec id of HEVC.
pub const CODEC_HEVC: u8 = 12;

/// Number of entries in the table of AAC sampling frequencies.
pub const AAC_FREQUENCIES: u8 = 13;

/// The header of an audio payload.
#[derive(Clone, Copy, Debug, PartialEq, Eq, Structural)]
pub struct AudioTag {
    pub sound_format: u8,
    pub sound_rate: u8,
    pub sound_size: u8,
    pub sound_type: u8,
    pub aac_packet_type: u8,
}

/// The header of a video payload.
#[derive(Clone, Copy, Debug, PartialEq, Eq, Structural)]
pub struct VideoTag {
    pub frame_type: u8,
    pub codec_id: u8,
    pub avc_packet_type: u8,
}

/// What an AAC sequence header says of the audio that follows.
#[derive(Clone, Copy, Debug, PartialEq, Eq, Structural)]
pub struct AacCodecInfo {
    pub profile: u8,
    pub sampling_frequency_index: u8,
    pub channel_configuration: u8,
    pub sampling_frequency: u32,
    pub channels: u8,
}

/// What an AVC decoder configuration record says of the video that follows.
#[derive(Clone, Copy, Debug, PartialEq, Eq, Structural)]
pub struct AvcCodecInfo {
    pub profile: u8,
    pub level: u8,
    pub width: u32,
    pub height: u32,
}

impl AudioTag {
    /// Whether this header opens an AAC sequence header.
    pub open spec fn spec_is_aac_sequence_header(self) -> bool {
        self.sound_format == SOUND_FORMAT_AAC && self.aac_packet_type == AAC_SEQHDR
    }

    #[verifier::when_used_as_spec(spec_is_aac_sequence_header)]
    pub fn is_aac_sequence_header(self) -> (yes: bool)
        ensures
            yes == self.spec_is_aac_sequence_header(),
    {
        self.sound_format == SOUND_FORMAT_AAC && self.aac_packet_type == AAC_SEQHDR
    }
}

impl VideoTag {
    /// Whether this header opens a key frame.
    pub open spec fn spec_is_key_frame(self) -> bool {
        self.frame_type == KEY_FRAME
    }

    #[verifier::when_used_as_spec(spec_is_key_frame)]
    pub fn is_key_frame(self) -> (yes: bool)
        ensures
            yes == self.spec_is_key_frame(),
    {
        self.frame_type == KEY_FRAME
    }

    /// Whether this header opens a key frame that carries a decoder
    /// configuration record.
    pub open spec fn spec_is_sequence_header(self) -> bool {
        self.frame_type == KEY_FRAME && self.avc_packet_type == AVC_SEQHDR
    }

    #[verifier::when_used_as_spec(spec_is_sequence_header)]
    pub fn is_sequence_header(self) -> (yes: bool)
        ensures
            yes == self.spec_is_sequence_header(),
    {
        self.frame_type == KEY_FRAME && self.avc_packet_type == AVC_SEQHDR
    }
}

/// Length of the audio tag header that starts with `flags`.
pub open spec fn audio_header_len(flags: u8) -> nat {
    if flags >> 4 == SOUND_FORMAT_AAC {
        2
    } else {
        1
    }
}

/// Whether `body` is long enough to hold its audio tag header.
pub open spec fn audio_tag_parses(body: Seq<u8>) -> bool {
    body.len() >= 1 && body.len() >= audio_header_len(body[0])
}

/// The audio tag header at the start of `body`.
pub open spec fn audio_tag_of(body: Seq<u8>) -> AudioTag {
    let flags = body[0];
    AudioTag {
        sound_format: flags >> 4,
        sound_rate: (flags >> 2) & 0x03,
        sound_size: (flags >> 1) & 0x01,
        sound_type: flags & 0x01,
        aac_packet_type: if flags >> 4 == SOUND_FORMAT_AAC {
            body[1]
        } else {
            0
        },
    }
}

/// What follows the audio tag header in `body`.
pub open spec fn audio_payload_of(body: Seq<u8>) -> Seq<u8> {
    body.skip(audio_header_len(body[0]) as int)
}

/// Length of the video tag header that starts with `flags`.
pub open spec fn video_header_len(flags: u8) -> nat {
    if flags & 0x0f == CODEC_H264 || flags & 0x0f == CODEC_HEVC {
        5
    } else {
        1
    }
}

/// Whether `body` is long enough to hold its video tag header.
pub open spec fn video_tag_parses(body: Seq<u8>) -> bool {
    body.len() >= 1 && body.len() >= video_header_len(body[0])
}

/// The video tag header at the start of `body`.
pub open spec fn video_tag_of(body: Seq<u8>) -> VideoTag {
    let flags = body[0];
    VideoTag {
        frame_type: flags >> 4,
        codec_id: flags & 0x0f,
        avc_packet_type: if flags & 0x0f == CODEC_H264 || flags & 0x0f == CODEC_HEVC {
            body[1]
        } else {
            0
        },
    }
}

/// What follows the video tag header in `body`.
pub open spec fn video_payload_of(body: Seq<u8>) -> Seq<u8> {
    body.skip(video_header_len(body[0]) as int)
}

/// The sampling frequency index that the first two bytes of an AAC
/// audio-specific configuration hold.
pub open spec fn aac_frequency_index(byte_0: u8, byte_1: u8) -> u8 {
    ((byte_0 & 0x07) << 1) | ((byte_1 >> 7) & 0x01)
}

/// The sampling frequency in Hz that an index stands for.
pub open spec fn aac_frequency(index: u8) -> u32 {
    if index == 0 {
        96000
    } else if index == 1 {
        88200
    } else if index == 2 {
        64000
    } else if index == 3 {
        48000
    } else if index == 4 {
        44100
    } else if index == 5 {
        32000
    } else if index == 6 {
        24000
    } else if index == 7 {
        22050
    } else if index == 8 {
        16000
    } else if index == 9 {
        12000
    } else if index == 10 {
        11025
    } else if index == 11 {
        8000
    } else {
        7350
    }
}

/// Whether an AAC audio-specific configuration can be loaded from `config`:
/// it has its two bytes, and they name a sampling frequency of the table.
pub open spec fn aac_config_loads(config: Seq<u8>) -> bool {
    config.len() >= 2 && aac_frequency_index(config[0], config[1]) < AAC_FREQUENCIES
}

/// What the first two bytes of an AAC audio-specific configuration say.
pub open spec fn aac_info_of(config: Seq<u8>) -> AacCodecInfo {
    let index = aac_frequency_index(config[0], config[1]);
    AacCodecInfo {
        profile: (config[0] >> 3) & 0x1f,
        sampling_frequency_index: index,
        channel_configuration: (config[1] >> 3) & 0x0f,
        sampling_frequency: aac_frequency(index),
        channels: (config[1] >> 3) & 0x0f,
    }
}

/// Reads the audio tag header of `body` with xflv's `AudioTagHeaderDemuxer`
/// (`new`, `parse_tag_header`, then `get_remaining_bytes`).
///
/// Trusted: the parse succeeds exactly when the payload holds the one or two
/// bytes of the header; the result is the header's fields as the first two
/// bytes give them, and the bytes behind the header.
#[verifier::external_body]
pub(crate) fn parse_audio_tag(body: BytesMut) -> (r: Result<(AudioTag, BytesMut), FlvDemuxerError>)
    ensures
        r is Ok <==> audio_tag_parses(bytes_of(body)),
        r matches Ok((tag, rest)) ==> tag == audio_tag_of(bytes_of(body)) && bytes_of(rest)
            == audio_payload_of(bytes_of(body)),
{
    let mut parser = AudioTagHeaderDemuxer::new(body);
    let tag = parser.parse_tag_header()?;
    let header = AudioTag {
        sound_format: tag.sound_format,
        sound_rate: tag.sound_rate,
        sound_size: tag.sound_size,
        sound_type: tag.sound_type,
        aac_packet_type: tag.aac_packet_type,
    };
    Ok((header, parser.get_remaining_bytes()))
}

/// Reads the video tag header of `body` with xflv's `VideoTagHeaderDemuxer`
/// (`new`, `parse_tag_header`, then `get_remaining_bytes`).
///
/// Trusted: the parse succeeds exactly when the payload holds the header,
/// which has five bytes for H.264 and HEVC and one byte otherwise; the result
/// is the header's fields as the first two bytes give them, and the bytes
/// behind the header.
#[verifier::external_body]
pub(crate) fn parse_video_tag(body: BytesMut) -> (r: Result<(VideoTag, BytesMut), FlvDemuxerError>)
    ensures
        r is Ok <==> video_tag_parses(bytes_of(body)),
        r matches Ok((tag, rest)) ==> tag == video_tag_of(bytes_of(body)) && bytes_of(rest)
            == video_payload_of(bytes_of(body)),
{
    let mut parser = VideoTagHeaderDemuxer::new(body);
    let tag = parser.parse_tag_header()?;
    let header = VideoTag {
        frame_type: tag.frame_type,
        codec_id: tag.codec_id,
        avc_packet_type: tag.avc_packet_type,
    };
    Ok((header, parser.get_remaining_bytes()))
}

/// Loads an AAC audio-specific configuration with xflv's
/// `Mpeg4AacProcessor` (`default`, `extend_data`, then
/// `audio_specific_config_load`).
///
/// Trusted: the load fails when fewer than two bytes are there, and else
/// returns what those two bytes say. The processor looks the sampling
/// frequency up in a table of thirteen entries without testing the index, so
/// an index beyond the table is left out here.
#[verifier::external_body]
pub(crate) fn load_audio_specific_config(config: BytesMut) -> (r: Result<
    AacCodecInfo,
    MpegAacError,
>)
    requires
        bytes_of(config).len() >= 2 ==> aac_config_loads(bytes_of(config)),
    ensures
        r is Ok <==> bytes_of(config).len() >= 2,
        r matches Ok(info) ==> info == aac_info_of(bytes_of(config)),
{
    let mut processor = Mpeg4AacProcessor::default();
    let aac = &processor.extend_data(config).audio_specific_config_load()?.mpeg4_aac;
    Ok(
        AacCodecInfo {
            profile: aac.profile,
            sampling_frequency_index: aac.sampling_frequency_index,
            channel_configuration: aac.channel_configuration,
            sampling_frequency: aac.sampling_frequency,
            channels: aac.channels,
        },
    )
}

/// Tells whether the two leading bytes of `config`, if it has them, name a
/// sampling frequency that the table holds.
pub fn names_known_frequency(config: &BytesMut) -> (known: bool)
    ensures
        known <==> (bytes_of(*config).len() >= 2 ==> aac_config_loads(bytes_of(*config))),
{
    if config.len() < 2 {
        true
    } else {
        let byte_0 = byte_at(config, 0);
        let byte_1 = byte_at(config, 1);
        let index: u8 = ((byte_0 & 0x07) << 1) | ((byte_1 >> 7) & 0x01);
        index < AAC_FREQUENCIES
    }
}

} // verus!
