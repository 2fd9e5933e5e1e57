//! The media cache of one stream: the latest metadata, the latest audio and
//! video sequence headers, and the window of recent groups of pictures. A
//! subscriber that joins late is served from it.

pub mod errors;
pub mod gop;
pub mod metadata;

use bytes::BytesMut;
use std::collections::VecDeque;
use vstd::prelude::*;
use xflv::errors::MpegAvcError;

use crate::buffer::bytes_of;
use crate::cache::errors::{CacheError, CacheErrorValue};
use crate::cache::gop::{concat_gops, gops_view, Gop, GopWindow, Gops};
use crate::cache::metadata::MetaData;
use crate::channels::define::{frames_view, ChannelData, MediaFrame};
use crate::codec::{
    aac_config_loads, aac_info_of, audio_payload_of, audio_tag_of, audio_tag_parses,
    load_audio_specific_config, names_known_frequency, parse_audio_tag, parse_video_tag,
    video_payload_of, video_tag_of, video_tag_parses, AacCodecInfo, AvcCodecInfo,
};
use crate::statistics::{AudioNotice, VideoNotice};

verus! {

/// The cache as a mathematical value.
pub ghost struct CacheState {
    pub app_name: Seq<char>,
    pub stream_name: Seq<char>,
    pub metadata: Seq<u8>,
    pub metadata_timestamp: u32,
    pub video_seq: Seq<u8>,
    pub video_timestamp: u32,
    pub audio_seq: Seq<u8>,
    pub audio_timestamp: u32,
    pub gops: GopWindow,
}

/// A run of zero or one frame.
pub open spec fn optional_frame(frame: Option<MediaFrame>) -> Seq<MediaFrame> {
    match frame {
        Some(f) => seq![f],
        None => Seq::<MediaFrame>::empty(),
    }
}

impl CacheState {
    /// The cache of a stream that has seen no frame yet.
    pub open spec fn fresh(app_name: Seq<char>, stream_name: Seq<char>, gop_num: nat) -> CacheState {
        CacheState {
            app_name,
            stream_name,
            metadata: Seq::<u8>::empty(),
            metadata_timestamp: 0,
            video_seq: Seq::<u8>::empty(),
            video_timestamp: 0,
            audio_seq: Seq::<u8>::empty(),
            audio_timestamp: 0,
            gops: GopWindow::fresh(gop_num),
        }
    }

    /// The stored metadata frame; none while the stored payload is empty.
    pub open spec fn metadata_frame(self) -> Option<MediaFrame> {
        if self.metadata.len() > 0 {
            Some(MediaFrame::metadata(self.metadata_timestamp, self.metadata))
        } else {
            None
        }
    }

    /// The stored audio sequence header; none while the stored payload is empty.
    pub open spec fn audio_seq_frame(self) -> Option<MediaFrame> {
        if self.audio_seq.len() > 0 {
            Some(MediaFrame::audio(self.audio_timestamp, self.audio_seq))
        } else {
            None
        }
    }

    /// The stored video sequence header; none while the stored payload is empty.
    pub open spec fn video_seq_frame(self) -> Option<MediaFrame> {
        if self.video_seq.len() > 0 {
            Some(MediaFrame::video(self.video_timestamp, self.video_seq))
        } else {
            None
        }
    }

    /// What a decoder needs before any frame: metadata, audio sequence
    /// header, video sequence header, each only if it is stored.
    pub open spec fn headers(self) -> Seq<MediaFrame> {
        optional_frame(self.metadata_frame()) + optional_frame(self.audio_seq_frame())
            + optional_frame(self.video_seq_frame())
    }

    /// The cached groups; none while caching is switched off.
    pub open spec fn gops_data(self) -> Option<Seq<Seq<MediaFrame>>> {
        if self.gops.setted() {
            Some(self.gops.gops)
        } else {
            None
        }
    }

    /// The frames of the cached groups, oldest first.
    pub open spec fn gop_frames(self) -> Seq<MediaFrame> {
        match self.gops_data() {
            Some(gops) => concat_gops(gops),
            None => Seq::<MediaFrame>::empty(),
        }
    }

    /// What a subscriber that joins now is sent first: the headers, then the
    /// cached frames.
    pub open spec fn replay_set(self) -> Seq<MediaFrame> {
        self.headers() + self.gop_frames()
    }

    /// The cache after a metadata payload has been saved.
    pub open spec fn save_metadata(self, body: Seq<u8>, timestamp: u32) -> CacheState {
        CacheState { metadata: body, metadata_timestamp: timestamp, ..self }
    }

    /// The cache after an audio payload has been handed in. The frame joins
    /// the current group in any case. An AAC sequence header whose
    /// configuration loads also takes the place of the stored one; one that
    /// is turned down leaves the stored one alone.
    pub open spec fn save_audio(self, body: Seq<u8>, timestamp: u32) -> CacheState {
        let gops = self.gops.save(MediaFrame::audio(timestamp, body), false);
        if audio_saves(body) && audio_tag_of(body).is_aac_sequence_header() {
            CacheState { audio_seq: body, audio_timestamp: timestamp, gops, ..self }
        } else {
            CacheState { gops, ..self }
        }
    }

    /// The cache after a video payload has been handed in. A frame that is
    /// no sequence header joins the window. A payload whose header cannot be
    /// read leaves no trace, and a sequence header leaves none before its
    /// record has been decoded.
    pub open spec fn save_video(self, body: Seq<u8>, timestamp: u32) -> CacheState {
        if video_tag_parses(body) && !video_tag_of(body).is_sequence_header() {
            CacheState {
                gops: self.gops.save(
                    MediaFrame::video(timestamp, body),
                    video_tag_of(body).is_key_frame(),
                ),
                ..self
            }
        } else {
            self
        }
    }

    /// The cache after a video sequence header whose record was decoded has
    /// been taken in: it joins the window as the key frame that it is, and
    /// takes the place of the stored header.
    pub open spec fn save_video_seq(self, body: Seq<u8>, timestamp: u32) -> CacheState {
        CacheState {
            video_seq: body,
            video_timestamp: timestamp,
            gops: self.gops.save(MediaFrame::video(timestamp, body), true),
            ..self
        }
    }
}

/// One thing that a publisher's frames do to the cache.
pub ghost enum CacheInput {
    MetaData { body: Seq<u8>, timestamp: u32 },
    Audio { body: Seq<u8>, timestamp: u32 },
    Video { body: Seq<u8>, timestamp: u32 },
    VideoSeq { body: Seq<u8>, timestamp: u32 },
}

impl CacheState {
    /// The cache after one input.
    pub open spec fn apply(self, input: CacheInput) -> CacheState {
        match input {
            CacheInput::MetaData { body, timestamp } => self.save_metadata(body, timestamp),
            CacheInput::Audio { body, timestamp } => self.save_audio(body, timestamp),
            CacheInput::Video { body, timestamp } => self.save_video(body, timestamp),
            CacheInput::VideoSeq { body, timestamp } => self.save_video_seq(body, timestamp),
        }
    }

    /// The cache after a run of inputs, first to last.
    pub open spec fn apply_all(self, inputs: Seq<CacheInput>) -> CacheState
        decreases inputs.len(),
    {
        if inputs.len() == 0 {
            self
        } else {
            self.apply_all(inputs.drop_last()).apply(inputs.last())
        }
    }
}

/// With a capacity of zero the replay set holds the headers and no cached
/// frame, whatever the publisher has sent.
pub proof fn law_no_capacity_replays_headers_only(
    app_name: Seq<char>,
    stream_name: Seq<char>,
    inputs: Seq<CacheInput>,
)
    ensures
        CacheState::fresh(app_name, stream_name, 0).apply_all(inputs).gops == GopWindow::fresh(0),
        CacheState::fresh(app_name, stream_name, 0).apply_all(inputs).gop_frames()
            == Seq::<MediaFrame>::empty(),
        CacheState::fresh(app_name, stream_name, 0).apply_all(inputs).replay_set()
            == CacheState::fresh(app_name, stream_name, 0).apply_all(inputs).headers(),
    decreases inputs.len(),
{
    let start = CacheState::fresh(app_name, stream_name, 0);
    if inputs.len() > 0 {
        law_no_capacity_replays_headers_only(app_name, stream_name, inputs.drop_last());
    }
    let end = start.apply_all(inputs);
    assert(end.headers() + Seq::<MediaFrame>::empty() =~= end.headers());
}

/// Whether an audio payload is taken in without an error.
pub open spec fn audio_saves(body: Seq<u8>) -> bool {
    audio_tag_parses(body) && (audio_tag_of(body).is_aac_sequence_header() ==> aac_config_loads(
        audio_payload_of(body),
    ))
}

/// Whether `reason` is why an audio payload is turned down: its tag header
/// cannot be read, or it is an AAC sequence header whose configuration is
/// too short or names a sampling frequency that is not known.
pub open spec fn audio_failure(body: Seq<u8>, reason: CacheErrorValue) -> bool {
    match reason {
        CacheErrorValue::DemuxerError(_) => !audio_tag_parses(body),
        CacheErrorValue::MpegAacError(_) => {
            &&& audio_tag_parses(body)
            &&& audio_tag_of(body).is_aac_sequence_header()
            &&& audio_payload_of(body).len() < 2
        },
        CacheErrorValue::UnknownSamplingFrequency => {
            &&& audio_tag_parses(body)
            &&& audio_tag_of(body).is_aac_sequence_header()
            &&& audio_payload_of(body).len() >= 2
            &&& !aac_config_loads(audio_payload_of(body))
        },
        CacheErrorValue::MpegAvcError(_) => false,
    }
}

/// The report on an audio payload that was taken in without an error. The
/// codec parameters go with the first AAC sequence header of a stream.
pub open spec fn audio_notice_of(body: Seq<u8>, first_header: bool) -> AudioNotice {
    AudioNotice {
        codec: if audio_tag_of(body).is_aac_sequence_header() && first_header {
            Some(aac_info_of(audio_payload_of(body)))
        } else {
            None
        },
        size: body.len() as usize,
        aac_packet_type: audio_tag_of(body).aac_packet_type,
    }
}

/// A video sequence header that waits for its decoder configuration record
/// to be decoded.
pub struct VideoSequenceHeader {
    /// The whole payload, tag header included.
    pub chunk_body: BytesMut,
    pub timestamp: u32,
    /// The decoder configuration record: what follows the tag header.
    pub record: BytesMut,
}

/// How far the cache got with a video payload.
pub enum VideoSave {
    /// The frame is cached and there is nothing more to do.
    Saved(VideoNotice),
    /// The frame is cached; it is a sequence header, which is stored once its
    /// record has been decoded.
    SequenceHeader(VideoSequenceHeader),
}

pub struct Cache {
    app_name: String,
    stream_name: String,
    metadata: MetaData,
    metadata_timestamp: u32,
    video_seq: BytesMut,
    video_timestamp: u32,
    audio_seq: BytesMut,
    audio_timestamp: u32,
    gops: Gops,
}

impl View for Cache {
    type V = CacheState;

    closed spec fn view(&self) -> CacheState {
        CacheState {
            app_name: self.app_name@,
            stream_name: self.stream_name@,
            metadata: self.metadata@,
            metadata_timestamp: self.metadata_timestamp,
            video_seq: bytes_of(self.video_seq),
            video_timestamp: self.video_timestamp,
            audio_seq: bytes_of(self.audio_seq),
            audio_timestamp: self.audio_timestamp,
            gops: self.gops@,
        }
    }
}

impl Cache {
    pub fn new(app_name: String, stream_name: String, gop_num: usize) -> (cache: Self)
        ensures
            cache@ == CacheState::fresh(app_name@, stream_name@, gop_num as nat),
            cache@.gops.wf(),
    {
        Cache {
            app_name,
            stream_name,
            metadata: MetaData::new(),
            metadata_timestamp: 0,
            video_seq: BytesMut::new(),
            video_timestamp: 0,
            audio_seq: BytesMut::new(),
            audio_timestamp: 0,
            gops: Gops::new(gop_num),
        }
    }

    /// The window of every cache has a current group, so that a save never
    /// changes the number of groups.
    pub proof fn law_has_current_group(&self)
        ensures
            self@.gops.wf(),
    {
        self.gops.law_has_current_group();
    }

    /// The application name of the stream that this cache belongs to.
    pub fn app_name(&self) -> (name: &String)
        ensures
            name@ == self@.app_name,
    {
        &self.app_name
    }

    /// The name of the stream that this cache belongs to.
    pub fn stream_name(&self) -> (name: &String)
        ensures
            name@ == self@.stream_name,
    {
        &self.stream_name
    }

    pub fn save_metadata(&mut self, chunk_body: BytesMut, timestamp: u32)
        ensures
            final(self)@ == old(self)@.save_metadata(bytes_of(chunk_body), timestamp),
            final(self)@.gops.wf(),
    {
        proof {
            self.gops.law_has_current_group();
        }
        self.metadata.save(chunk_body);
        self.metadata_timestamp = timestamp;
    }

    pub fn get_metadata(&self) -> (frame: Option<ChannelData>)
        ensures
            frame is Some <==> self@.metadata_frame() is Some,
            frame matches Some(f) ==> Some(f@) == self@.metadata_frame(),
    {
        let data = self.metadata.get_chunk_body();
        if !data.is_empty() {
            Some(ChannelData::MetaData { timestamp: self.metadata_timestamp, data })
        } else {
            None
        }
    }

    /// Takes in an audio frame. The frame joins the current group. Where it
    /// is an AAC sequence header whose configuration loads, it is stored as
    /// the latest one; a header that is turned down leaves the stored one in
    /// place. Returns what the statistics collaborator is to be told: the
    /// size and the packet type of the frame, and with the first AAC
    /// sequence header the codec parameters.
    pub fn save_audio_data(&mut self, chunk_body: BytesMut, timestamp: u32) -> (r: Result<
        AudioNotice,
        CacheError,
    >)
        ensures
            final(self)@ == old(self)@.save_audio(bytes_of(chunk_body), timestamp),
            final(self)@.gops.wf(),
            match r {
                Ok(notice) => audio_saves(bytes_of(chunk_body)) && notice == audio_notice_of(
                    bytes_of(chunk_body),
                    old(self)@.audio_seq_frame() is None,
                ),
                Err(e) => audio_failure(bytes_of(chunk_body), e.value),
            },
    {
        let channel_data = ChannelData::Audio { timestamp, data: chunk_body.clone() };
        self.gops.save_frame_data(channel_data, false);
        proof {
            self.gops.law_has_current_group();
        }

        let (tag, payload) = match parse_audio_tag(chunk_body.clone()) {
            Ok(parsed) => parsed,
            Err(err) => {
                return Err(CacheError { value: CacheErrorValue::DemuxerError(err) });
            },
        };
        let size = chunk_body.len();
        let mut codec: Option<AacCodecInfo> = None;

        if tag.is_aac_sequence_header() {
            if !names_known_frequency(&payload) {
                return Err(CacheError { value: CacheErrorValue::UnknownSamplingFrequency });
            }
            match load_audio_specific_config(payload) {
                Ok(info) => {
                    if self.audio_seq.is_empty() {
                        codec = Some(info);
                    }
                    self.audio_seq = chunk_body;
                    self.audio_timestamp = timestamp;
                },
                Err(err) => {
                    return Err(CacheError { value: CacheErrorValue::MpegAacError(err) });
                },
            }
        }
        Ok(AudioNotice { codec, size, aac_packet_type: tag.aac_packet_type })
    }

    pub fn get_audio_seq(&self) -> (frame: Option<ChannelData>)
        ensures
            frame is Some <==> self@.audio_seq_frame() is Some,
            frame matches Some(f) ==> Some(f@) == self@.audio_seq_frame(),
    {
        if !self.audio_seq.is_empty() {
            return Some(
                ChannelData::Audio { timestamp: self.audio_timestamp, data: self.audio_seq.clone() },
            );
        }
        None
    }

    pub fn get_video_seq(&self) -> (frame: Option<ChannelData>)
        ensures
            frame is Some <==> self@.video_seq_frame() is Some,
            frame matches Some(f) ==> Some(f@) == self@.video_seq_frame(),
    {
        if !self.video_seq.is_empty() {
            return Some(
                ChannelData::Video { timestamp: self.video_timestamp, data: self.video_seq.clone() },
            );
        }
        None
    }

    /// Takes in a video frame: reads its tag header and, unless the frame is
    /// a sequence header, caches it. A key frame that carries a decoder
    /// configuration record comes back untouched as a sequence header:
    /// `save_video_seq` takes it in once the record has been decoded.
    pub fn save_video_data(&mut self, chunk_body: BytesMut, timestamp: u32) -> (r: Result<
        VideoSave,
        CacheError,
    >)
        ensures
            final(self)@ == old(self)@.save_video(bytes_of(chunk_body), timestamp),
            final(self)@.gops.wf(),
            match r {
                Ok(VideoSave::Saved(notice)) => {
                    &&& video_tag_parses(bytes_of(chunk_body))
                    &&& !video_tag_of(bytes_of(chunk_body)).is_sequence_header()
                    &&& notice == VideoNotice {
                        codec: None,
                        size: bytes_of(chunk_body).len() as usize,
                        is_key_frame: video_tag_of(bytes_of(chunk_body)).is_key_frame(),
                    }
                },
                Ok(VideoSave::SequenceHeader(header)) => {
                    &&& video_tag_parses(bytes_of(chunk_body))
                    &&& video_tag_of(bytes_of(chunk_body)).is_sequence_header()
                    &&& bytes_of(header.chunk_body) == bytes_of(chunk_body)
                    &&& header.timestamp == timestamp
                    &&& bytes_of(header.record) == video_payload_of(bytes_of(chunk_body))
                },
                Err(e) => !video_tag_parses(bytes_of(chunk_body))
                    && e.value is DemuxerError,
            },
    {
        proof {
            self.gops.law_has_current_group();
        }
        let (tag, record) = match parse_video_tag(chunk_body.clone()) {
            Ok(parsed) => parsed,
            Err(err) => {
                return Err(CacheError { value: CacheErrorValue::DemuxerError(err) });
            },
        };
        if tag.is_sequence_header() {
            return Ok(
                VideoSave::SequenceHeader(VideoSequenceHeader { chunk_body, timestamp, record }),
            );
        }
        let channel_data = ChannelData::Video { timestamp, data: chunk_body.clone() };
        let is_key_frame = tag.is_key_frame();
        self.gops.save_frame_data(channel_data, is_key_frame);
        proof {
            self.gops.law_has_current_group();
        }
        Ok(VideoSave::Saved(VideoNotice { codec: None, size: chunk_body.len(), is_key_frame }))
    }

    /// Finishes a video sequence header with the outcome of decoding its
    /// record. With a decoded record the header joins the window as a key
    /// frame and becomes the stored header. With a record that could not be
    /// decoded the cache stays as it was.
    pub fn save_video_seq(
        &mut self,
        header: VideoSequenceHeader,
        decoded: Result<AvcCodecInfo, MpegAvcError>,
    ) -> (r: Result<VideoNotice, CacheError>)
        ensures
            final(self)@.gops.wf(),
            match decoded {
                Ok(info) => {
                    &&& final(self)@ == old(self)@.save_video_seq(
                        bytes_of(header.chunk_body),
                        header.timestamp,
                    )
                    &&& r == Ok::<VideoNotice, CacheError>(
                        VideoNotice {
                            codec: Some(info),
                            size: bytes_of(header.chunk_body).len() as usize,
                            is_key_frame: true,
                        },
                    )
                },
                Err(err) => {
                    &&& final(self)@ == old(self)@
                    &&& r == Err::<VideoNotice, CacheError>(
                        CacheError { value: CacheErrorValue::MpegAvcError(err) },
                    )
                },
            },
    {
        proof {
            self.gops.law_has_current_group();
        }
        match decoded {
            Ok(info) => {
                let size = header.chunk_body.len();
                let channel_data = ChannelData::Video {
                    timestamp: header.timestamp,
                    data: header.chunk_body.clone(),
                };
                self.gops.save_frame_data(channel_data, true);
                proof {
                    self.gops.law_has_current_group();
                }
                self.video_seq = header.chunk_body;
                self.video_timestamp = header.timestamp;
                Ok(VideoNotice { codec: Some(info), size, is_key_frame: true })
            },
            Err(err) => Err(CacheError { value: CacheErrorValue::MpegAvcError(err) }),
        }
    }

    pub fn get_gops_data(&self) -> (gops: Option<VecDeque<Gop>>)
        ensures
            gops is Some <==> self@.gops_data() is Some,
            gops matches Some(g) ==> Some(gops_view(g@)) == self@.gops_data(),
    {
        if self.gops.setted() {
            Some(self.gops.get_gops())
        } else {
            None
        }
    }

    /// Everything that a subscriber who joins now is sent before live frames:
    /// metadata, audio sequence header and video sequence header as far as
    /// they are stored, then every cached frame, oldest first.
    pub fn get_replay_set(&self) -> (frames: Vec<ChannelData>)
        ensures
            frames_view(frames@) == self@.replay_set(),
    {
        let mut frames: Vec<ChannelData> = Vec::new();
        if let Some(meta_body_data) = self.get_metadata() {
            frames.push(meta_body_data);
        }
        assert(frames_view(frames@) =~= optional_frame(self@.metadata_frame()));
        let ghost with_meta = frames@;
        if let Some(audio_seq_data) = self.get_audio_seq() {
            frames.push(audio_seq_data);
        }
        assert(frames_view(frames@) =~= frames_view(with_meta) + optional_frame(
            self@.audio_seq_frame(),
        ));
        let ghost with_audio = frames@;
        if let Some(video_seq_data) = self.get_video_seq() {
            frames.push(video_seq_data);
        }
        assert(frames_view(frames@) =~= frames_view(with_audio) + optional_frame(
            self@.video_seq_frame(),
        ));
        assert(frames_view(frames@) =~= self@.headers());
        if let Some(mut gops_data) = self.get_gops_data() {
            let ghost all = gops_view(gops_data@);
            let ghost done: int = 0;
            assert(all.take(0) =~= Seq::<Seq<MediaFrame>>::empty());
            loop
                invariant
                    0 <= done <= all.len(),
                    gops_view(gops_data@) == all.skip(done),
                    frames_view(frames@) == self@.headers() + concat_gops(all.take(done)),
                    all == self@.gops.gops,
                    self@.gops.setted(),
                ensures
                    frames_view(frames@) == self@.replay_set(),
                decreases gops_data@.len(),
            {
                let ghost left = gops_data@;
                match gops_data.pop_front() {
                    Some(gop) => {
                        let ghost before = frames@;
                        let mut datas = gop.get_frame_data();
                        let ghost added = datas@;
                        frames.append(&mut datas);
                        proof {
                            assert(gops_view(left).len() == left.len());
                            assert(done < all.len());
                            assert(gops_view(left)[0] == left[0]@);
                            assert(all.skip(done)[0] == all[done]);
                            assert(frames_view(added) == all[done]);
                            assert(frames_view(frames@) =~= frames_view(before) + frames_view(
                                added,
                            ));
                            assert(all.take(done + 1).drop_last() =~= all.take(done));
                            assert(all.take(done + 1).last() == all[done]);
                            assert forall|j: int| 0 <= j < gops_data@.len() implies gops_view(
                                gops_data@,
                            )[j] == all.skip(done + 1)[j] by {
                                assert(gops_data@[j] == left[j + 1]);
                                assert(gops_view(left)[j + 1] == left[j + 1]@);
                                assert(all.skip(done)[j + 1] == all[done + j + 1]);
                            }
                            assert(gops_view(gops_data@) =~= all.skip(done + 1));
                            done = done + 1;
                        }
                    },
                    None => {
                        proof {
                            assert(all.skip(done).len() == 0);
                            assert(all.take(done) =~= all);
                        }
                        break ;
                    },
                }
            }
        } else {
            assert(frames_view(frames@) =~= self@.replay_set());
        }
        frames
    }
}

} // verus!
