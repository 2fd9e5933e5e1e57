//! What the cache reports to the statistics collaborator of a stream, and the
//! snapshot that the collaborator hands out.

use vstd::prelude::*;

use crate::codec::{AacCodecInfo, AvcCodecInfo};

verus! {

/// Report on one audio frame that the cache has taken in.
#[derive(Clone, Copy, Debug, PartialEq, Eq, Structural)]
pub struct AudioNotice {
    /// The codec parameters, where the frame was an AAC sequence header.
    pub codec: Option<AacCodecInfo>,
    /// The size of the payload in bytes.
    pub size: usize,
    /// The AAC packet type of the frame.
    pub aac_packet_type: u8,
}

/// Report on one video frame that the cache has taken in.
#[derive(Clone, Copy, Debug, PartialEq, Eq, Structural)]
pub struct VideoNotice {
    /// The codec parameters, where the frame was a sequence header.
    pub codec: Option<AvcCodecInfo>,
    /// The size of the payload in bytes.
    pub size: usize,
    /// Whether the frame was a key frame.
    pub is_key_frame: bool,
}

/// A point-in-time snapshot of the counters of one stream.
#[derive(Debug)]
pub struct StreamStatistics {
    pub app_name: String,
    pub stream_name: String,
    pub audio: Option<AacCodecInfo>,
    pub video: Option<AvcCodecInfo>,
    pub audio_frames: u64,
    pub audio_bytes: u64,
    pub video_frames: u64,
    pub video_key_frames: u64,
    pub video_bytes: u64,
}

/// A counter that stops at its largest value.
pub open spec fn saturating(sum: int) -> u64 {
    if sum > u64::MAX {
        u64::MAX
    } else {
        sum as u64
    }
}

/// The counters of a stream as a mathematical value.
pub ghost struct Counters {
    pub app_name: Seq<char>,
    pub stream_name: Seq<char>,
    pub audio: Option<AacCodecInfo>,
    pub video: Option<AvcCodecInfo>,
    pub audio_frames: u64,
    pub audio_bytes: u64,
    pub video_frames: u64,
    pub video_key_frames: u64,
    pub video_bytes: u64,
}

impl Counters {
    /// The counters after an audio frame has been reported.
    pub open spec fn record_audio(self, notice: AudioNotice) -> Counters {
        Counters {
            audio: if notice.codec is Some {
                notice.codec
            } else {
                self.audio
            },
            audio_frames: saturating(self.audio_frames + 1),
            audio_bytes: saturating(self.audio_bytes + notice.size),
            ..self
        }
    }

    /// The counters after a video frame has been reported.
    pub open spec fn record_video(self, notice: VideoNotice) -> Counters {
        Counters {
            video: if notice.codec is Some {
                notice.codec
            } else {
                self.video
            },
            video_frames: saturating(self.video_frames + 1),
            video_key_frames: if notice.is_key_frame {
                saturating(self.video_key_frames + 1)
            } else {
                self.video_key_frames
            },
            video_bytes: saturating(self.video_bytes + notice.size),
            ..self
        }
    }
}

impl View for StreamStatistics {
    type V = Counters;

    open spec fn view(&self) -> Counters {
        Counters {
            app_name: self.app_name@,
            stream_name: self.stream_name@,
            audio: self.audio,
            video: self.video,
            audio_frames: self.audio_frames,
            audio_bytes: self.audio_bytes,
            video_frames: self.video_frames,
            video_key_frames: self.video_key_frames,
            video_bytes: self.video_bytes,
        }
    }
}

fn add_saturating(counter: u64, amount: usize) -> (sum: u64)
    ensures
        sum == saturating(counter + amount),
{
    let amount = amount as u64;
    if amount > u64::MAX - counter {
        u64::MAX
    } else {
        counter + amount
    }
}

impl StreamStatistics {
    /// The counters of a stream of which nothing has been reported yet.
    pub fn new(app_name: String, stream_name: String) -> (statistics: Self)
        ensures
            statistics@ == (Counters {
                app_name: app_name@,
                stream_name: stream_name@,
                audio: None,
                video: None,
                audio_frames: 0,
                audio_bytes: 0,
                video_frames: 0,
                video_key_frames: 0,
                video_bytes: 0,
            }),
    {
        StreamStatistics {
            app_name,
            stream_name,
            audio: None,
            video: None,
            audio_frames: 0,
            audio_bytes: 0,
            video_frames: 0,
            video_key_frames: 0,
            video_bytes: 0,
        }
    }

    /// Counts an audio frame in and keeps the codec parameters that it
    /// brought, if any.
    pub fn record_audio(&mut self, notice: &AudioNotice)
        ensures
            final(self)@ == old(self)@.record_audio(*notice),
    {
        if notice.codec.is_some() {
            self.audio = notice.codec;
        }
        self.audio_frames = add_saturating(self.audio_frames, 1);
        self.audio_bytes = add_saturating(self.audio_bytes, notice.size);
    }

    /// Counts a video frame in and keeps the codec parameters that it
    /// brought, if any.
    pub fn record_video(&mut self, notice: &VideoNotice)
        ensures
            final(self)@ == old(self)@.record_video(*notice),
    {
        if notice.codec.is_some() {
            self.video = notice.codec;
        }
        self.video_frames = add_saturating(self.video_frames, 1);
        if notice.is_key_frame {
            self.video_key_frames = add_saturating(self.video_key_frames, 1);
        }
        self.video_bytes = add_saturating(self.video_bytes, notice.size);
    }

    /// A copy of the counters as they stand.
    pub fn snapshot(&self) -> (copy: Self)
        ensures
            copy@ == self@,
    {
        StreamStatistics {
            app_name: self.app_name.clone(),
            stream_name: self.stream_name.clone(),
            audio: self.audio,
            video: self.video,
            audio_frames: self.audio_frames,
            audio_bytes: self.audio_bytes,
            video_frames: self.video_frames,
            video_key_frames: self.video_key_frames,
            video_bytes: self.video_bytes,
        }
    }
}

} // verus!
