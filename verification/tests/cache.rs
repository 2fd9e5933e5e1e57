use bytes::BytesMut;
use gms::cache::errors::{CacheError, CacheErrorValue};
use gms::cache::metadata::MetaData;
use gms::cache::{Cache, VideoSave};
use gms::channels::define::ChannelData;
use gms::codec::{names_known_frequency, AacCodecInfo, AudioTag, AvcCodecInfo, VideoTag};
use gms::statistics::{AudioNotice, VideoNotice};
use xflv::errors::{MpegAvcError, MpegErrorValue};

const AAC_SEQ_HEADER: [u8; 4] = [0xAF, 0x00, 0x12, 0x10];
const AAC_RAW: [u8; 4] = [0xAF, 0x01, 0x21, 0x22];
const MP3_AUDIO: [u8; 3] = [0x2F, 0x55, 0x66];
const AVC_SEQ_HEADER: [u8; 8] = [0x17, 0x00, 0x00, 0x00, 0x00, 0x01, 0x64, 0x00];
const AVC_KEY_FRAME: [u8; 7] = [0x17, 0x01, 0x00, 0x00, 0x00, 0xAA, 0xBB];
const AVC_INTER_FRAME: [u8; 6] = [0x27, 0x01, 0x00, 0x00, 0x00, 0xCC];

fn bytes(data: &[u8]) -> BytesMut {
    BytesMut::from(data)
}

fn describe(frame: &ChannelData) -> (char, u32, Vec<u8>) {
    match frame {
        ChannelData::Video { timestamp, data } => ('v', *timestamp, data.to_vec()),
        ChannelData::Audio { timestamp, data } => ('a', *timestamp, data.to_vec()),
        ChannelData::MetaData { timestamp, data } => ('m', *timestamp, data.to_vec()),
    }
}

fn replay(cache: &Cache) -> Vec<(char, u32, Vec<u8>)> {
    cache.get_replay_set().iter().map(describe).collect()
}

fn new_cache(gop_num: usize) -> Cache {
    Cache::new(String::from("live"), String::from("test"), gop_num)
}

fn error_of<T>(result: Result<T, CacheError>) -> CacheErrorValue {
    match result {
        Ok(_) => panic!("the save was expected to fail"),
        Err(error) => error.value,
    }
}

fn saved(result: Result<VideoSave, CacheError>) -> VideoNotice {
    match result {
        Ok(VideoSave::Saved(notice)) => notice,
        Ok(VideoSave::SequenceHeader(_)) => panic!("no sequence header was expected"),
        Err(_) => panic!("the save was expected to succeed"),
    }
}

#[test]
fn fresh_cache_holds_nothing() {
    let cache = new_cache(1);
    assert_eq!(cache.app_name(), "live");
    assert_eq!(cache.stream_name(), "test");
    assert!(cache.get_metadata().is_none());
    assert!(cache.get_audio_seq().is_none());
    assert!(cache.get_video_seq().is_none());
    assert!(replay(&cache).is_empty());
    let gops = cache.get_gops_data().expect("caching is switched on");
    assert_eq!(gops.len(), 1);
    assert!(gops[0].is_empty());
}

#[test]
fn metadata_store_replaces_whatever_it_held() {
    let mut metadata = MetaData::new();
    assert!(metadata.get_chunk_body().is_empty());
    metadata.save(bytes(&[1, 2, 3]));
    assert_eq!(metadata.get_chunk_body().to_vec(), vec![1, 2, 3]);
    metadata.save(bytes(&[9]));
    assert_eq!(metadata.get_chunk_body().to_vec(), vec![9]);
    assert!(MetaData::default().get_chunk_body().is_empty());
}

#[test]
fn metadata_is_replaced_without_validation() {
    let mut cache = new_cache(1);
    cache.save_metadata(bytes(&[0xFF, 0x00]), 5);
    let frame = cache.get_metadata().expect("metadata is stored");
    assert_eq!(describe(&frame), ('m', 5, vec![0xFF, 0x00]));
    cache.save_metadata(bytes(&[0x02]), 9);
    let frame = cache.get_metadata().expect("metadata is stored");
    assert_eq!(describe(&frame), ('m', 9, vec![0x02]));
}

#[test]
fn empty_metadata_counts_as_unset() {
    let mut cache = new_cache(1);
    cache.save_metadata(bytes(&[1]), 5);
    cache.save_metadata(bytes(&[]), 6);
    assert!(cache.get_metadata().is_none());
}

#[test]
fn aac_sequence_header_is_stored_and_decoded() {
    let mut cache = new_cache(1);
    let notice = cache.save_audio_data(bytes(&AAC_SEQ_HEADER), 7).ok().expect("saved");
    assert_eq!(
        notice,
        AudioNotice {
            codec: Some(AacCodecInfo {
                profile: 2,
                sampling_frequency_index: 4,
                channel_configuration: 2,
                sampling_frequency: 44100,
                channels: 2,
            }),
            size: 4,
            aac_packet_type: 0,
        }
    );
    let header = cache.get_audio_seq().expect("the header is stored");
    assert_eq!(describe(&header), ('a', 7, AAC_SEQ_HEADER.to_vec()));
    assert_eq!(
        replay(&cache),
        vec![('a', 7, AAC_SEQ_HEADER.to_vec()), ('a', 7, AAC_SEQ_HEADER.to_vec())]
    );
}

#[test]
fn aac_frequencies_follow_the_table() {
    let table: [u32; 13] = [
        96000, 88200, 64000, 48000, 44100, 32000, 24000, 22050, 16000, 12000, 11025, 8000, 7350,
    ];
    for (index, frequency) in table.iter().enumerate() {
        let index = index as u8;
        let byte_0 = (2 << 3) | (index >> 1);
        let byte_1 = ((index & 1) << 7) | (1 << 3);
        let mut cache = new_cache(1);
        let notice = cache
            .save_audio_data(bytes(&[0xAF, 0x00, byte_0, byte_1]), 0)
            .ok()
            .expect("saved");
        let codec = notice.codec.expect("a sequence header carries the codec");
        assert_eq!(codec.sampling_frequency_index, index);
        assert_eq!(codec.sampling_frequency, *frequency);
        assert_eq!(codec.profile, 2);
        assert_eq!(codec.channel_configuration, 1);
        assert_eq!(codec.channels, 1);
    }
}

#[test]
fn codec_parameters_go_with_the_first_sequence_header() {
    let mut cache = new_cache(1);
    let first = cache.save_audio_data(bytes(&AAC_SEQ_HEADER), 1).ok().expect("saved");
    assert!(first.codec.is_some());
    let second = cache.save_audio_data(bytes(&[0xAF, 0x00, 0x11, 0x90]), 2).ok().expect("saved");
    assert_eq!(second, AudioNotice { codec: None, size: 4, aac_packet_type: 0 });
    // The later header still takes the place of the stored one.
    let header = cache.get_audio_seq().expect("the header is stored");
    assert_eq!(describe(&header), ('a', 2, vec![0xAF, 0x00, 0x11, 0x90]));
    // And it is still decoded: a broken one is an error.
    let error = error_of(cache.save_audio_data(bytes(&[0xAF, 0x00, 0x12]), 3));
    assert!(matches!(error, CacheErrorValue::MpegAacError(_)));
}

#[test]
fn raw_audio_joins_the_gop_and_leaves_the_header() {
    let mut cache = new_cache(1);
    cache.save_audio_data(bytes(&AAC_SEQ_HEADER), 1).ok().expect("saved");
    let notice = cache.save_audio_data(bytes(&AAC_RAW), 2).ok().expect("saved");
    assert_eq!(notice, AudioNotice { codec: None, size: 4, aac_packet_type: 1 });
    let header = cache.get_audio_seq().expect("the header is stored");
    assert_eq!(describe(&header), ('a', 1, AAC_SEQ_HEADER.to_vec()));
    assert_eq!(
        replay(&cache),
        vec![
            ('a', 1, AAC_SEQ_HEADER.to_vec()),
            ('a', 1, AAC_SEQ_HEADER.to_vec()),
            ('a', 2, AAC_RAW.to_vec())
        ]
    );
}

#[test]
fn audio_of_another_format_is_no_sequence_header() {
    let mut cache = new_cache(1);
    let notice = cache.save_audio_data(bytes(&MP3_AUDIO), 3).ok().expect("saved");
    assert_eq!(notice, AudioNotice { codec: None, size: 3, aac_packet_type: 0 });
    assert!(cache.get_audio_seq().is_none());
    assert_eq!(replay(&cache), vec![('a', 3, MP3_AUDIO.to_vec())]);
}

#[test]
fn audio_without_header_fails_but_is_cached() {
    let mut cache = new_cache(1);
    let error = error_of(cache.save_audio_data(bytes(&[]), 4));
    assert!(matches!(error, CacheErrorValue::DemuxerError(_)));
    assert_eq!(replay(&cache), vec![('a', 4, vec![])]);

    let error = error_of(cache.save_audio_data(bytes(&[0xAF]), 5));
    assert!(matches!(error, CacheErrorValue::DemuxerError(_)));
    assert!(cache.get_audio_seq().is_none());
    assert_eq!(replay(&cache), vec![('a', 4, vec![]), ('a', 5, vec![0xAF])]);
}

#[test]
fn rejected_aac_header_leaves_the_stored_header() {
    let mut cache = new_cache(1);
    cache.save_audio_data(bytes(&AAC_SEQ_HEADER), 1).ok().expect("saved");

    // The configuration is too short.
    let error = error_of(cache.save_audio_data(bytes(&[0xAF, 0x00, 0x12]), 6));
    assert!(matches!(error, CacheErrorValue::MpegAacError(_)));
    let header = cache.get_audio_seq().expect("the header is stored");
    assert_eq!(describe(&header), ('a', 1, AAC_SEQ_HEADER.to_vec()));

    // Index 13: the low three bits of the first byte are 110, the top bit of
    // the second byte is 1.
    let error = error_of(cache.save_audio_data(bytes(&[0xAF, 0x00, 0x16, 0x90]), 7));
    assert!(matches!(error, CacheErrorValue::UnknownSamplingFrequency));
    let header = cache.get_audio_seq().expect("the header is stored");
    assert_eq!(describe(&header), ('a', 1, AAC_SEQ_HEADER.to_vec()));

    // The frames themselves have joined the group, behind what was there.
    assert_eq!(
        replay(&cache),
        vec![
            ('a', 1, AAC_SEQ_HEADER.to_vec()),
            ('a', 1, AAC_SEQ_HEADER.to_vec()),
            ('a', 6, vec![0xAF, 0x00, 0x12]),
            ('a', 7, vec![0xAF, 0x00, 0x16, 0x90]),
        ]
    );
}

#[test]
fn rejected_aac_header_is_not_stored_and_not_counted_as_first() {
    let mut cache = new_cache(1);
    let error = error_of(cache.save_audio_data(bytes(&[0xAF, 0x00, 0x12]), 6));
    assert!(matches!(error, CacheErrorValue::MpegAacError(_)));
    assert!(cache.get_audio_seq().is_none());
    let error = error_of(cache.save_audio_data(bytes(&[0xAF, 0x00, 0x16, 0x90]), 7));
    assert!(matches!(error, CacheErrorValue::UnknownSamplingFrequency));
    assert!(cache.get_audio_seq().is_none());

    // The next header that loads is the first one: it brings the codec.
    let notice = cache.save_audio_data(bytes(&AAC_SEQ_HEADER), 8).ok().expect("saved");
    assert!(notice.codec.is_some());
    let header = cache.get_audio_seq().expect("the header is stored");
    assert_eq!(describe(&header), ('a', 8, AAC_SEQ_HEADER.to_vec()));
}

#[test]
fn known_and_unknown_sampling_frequencies() {
    assert!(!names_known_frequency(&bytes(&[0x16, 0x90])));
    assert!(!names_known_frequency(&bytes(&[0x17, 0x80])));
    assert!(names_known_frequency(&bytes(&[0x16, 0x10])));
    assert!(names_known_frequency(&bytes(&[0x12, 0x10])));
    assert!(names_known_frequency(&bytes(&[0x17])));
    assert!(names_known_frequency(&bytes(&[])));
}

#[test]
fn video_frames_are_classified_by_their_header() {
    let mut cache = new_cache(1);
    let notice = saved(cache.save_video_data(bytes(&AVC_KEY_FRAME), 10));
    assert_eq!(notice, VideoNotice { codec: None, size: 7, is_key_frame: true });
    let notice = saved(cache.save_video_data(bytes(&AVC_INTER_FRAME), 20));
    assert_eq!(notice, VideoNotice { codec: None, size: 6, is_key_frame: false });
    assert!(cache.get_video_seq().is_none());
    assert_eq!(
        replay(&cache),
        vec![('v', 10, AVC_KEY_FRAME.to_vec()), ('v', 20, AVC_INTER_FRAME.to_vec())]
    );
}

#[test]
fn video_without_header_fails_and_leaves_no_trace() {
    let mut cache = new_cache(1);
    let error = error_of(cache.save_video_data(bytes(&[]), 1));
    assert!(matches!(error, CacheErrorValue::DemuxerError(_)));
    // An AVC header has five bytes.
    let error = error_of(cache.save_video_data(bytes(&[0x17, 0x01, 0x00, 0x00]), 2));
    assert!(matches!(error, CacheErrorValue::DemuxerError(_)));
    // So has an HEVC header.
    let error = error_of(cache.save_video_data(bytes(&[0x2C, 0x01]), 3));
    assert!(matches!(error, CacheErrorValue::DemuxerError(_)));
    assert!(replay(&cache).is_empty());
}

#[test]
fn video_sequence_header_waits_for_its_record() {
    let mut cache = new_cache(1);
    let header = match cache.save_video_data(bytes(&AVC_SEQ_HEADER), 30) {
        Ok(VideoSave::SequenceHeader(header)) => header,
        _ => panic!("a sequence header was expected"),
    };
    assert_eq!(header.chunk_body.to_vec(), AVC_SEQ_HEADER.to_vec());
    assert_eq!(header.timestamp, 30);
    assert_eq!(header.record.to_vec(), vec![0x01, 0x64, 0x00]);
    // Nothing is cached and nothing is stored before the record is decoded.
    assert!(cache.get_video_seq().is_none());
    assert!(replay(&cache).is_empty());

    let info = AvcCodecInfo { profile: 100, level: 31, width: 1280, height: 720 };
    let notice = cache.save_video_seq(header, Ok(info)).ok().expect("stored");
    assert_eq!(notice, VideoNotice { codec: Some(info), size: 8, is_key_frame: true });
    let stored = cache.get_video_seq().expect("the header is stored");
    assert_eq!(describe(&stored), ('v', 30, AVC_SEQ_HEADER.to_vec()));
    assert_eq!(
        replay(&cache),
        vec![('v', 30, AVC_SEQ_HEADER.to_vec()), ('v', 30, AVC_SEQ_HEADER.to_vec())]
    );
}

#[test]
fn undecodable_record_leaves_the_cache_as_it_was() {
    let mut cache = new_cache(1);
    let k1 = [0x17, 0x01, 0, 0, 0, 1];
    let d1 = [0x27, 0x01, 0, 0, 0, 2];
    cache.save_video_data(bytes(&k1), 1).ok().expect("saved");
    cache.save_video_data(bytes(&d1), 2).ok().expect("saved");

    let header = match cache.save_video_data(bytes(&AVC_SEQ_HEADER), 30) {
        Ok(VideoSave::SequenceHeader(header)) => header,
        _ => panic!("a sequence header was expected"),
    };
    let failure = MpegAvcError { value: MpegErrorValue::SPSNalunitTypeNotCorrect };
    let error = error_of(cache.save_video_seq(header, Err(failure)));
    assert!(matches!(
        error,
        CacheErrorValue::MpegAvcError(MpegAvcError {
            value: MpegErrorValue::SPSNalunitTypeNotCorrect
        })
    ));
    assert!(cache.get_video_seq().is_none());
    // The group that was there is still there.
    assert_eq!(replay(&cache), vec![('v', 1, k1.to_vec()), ('v', 2, d1.to_vec())]);
}

#[test]
fn decoded_sequence_header_opens_a_group_as_a_key_frame() {
    let mut cache = new_cache(1);
    let k1 = [0x17, 0x01, 0, 0, 0, 1];
    cache.save_video_data(bytes(&k1), 1).ok().expect("saved");
    let header = match cache.save_video_data(bytes(&AVC_SEQ_HEADER), 2) {
        Ok(VideoSave::SequenceHeader(header)) => header,
        _ => panic!("a sequence header was expected"),
    };
    assert_eq!(replay(&cache), vec![('v', 1, k1.to_vec())]);
    let info = AvcCodecInfo { profile: 66, level: 30, width: 640, height: 360 };
    cache.save_video_seq(header, Ok(info)).ok().expect("stored");
    assert_eq!(
        replay(&cache),
        vec![('v', 2, AVC_SEQ_HEADER.to_vec()), ('v', 2, AVC_SEQ_HEADER.to_vec())]
    );
}

#[test]
fn key_frame_of_another_codec_counts_as_sequence_header() {
    // Frame type 1, codec 2: the header has one byte and the packet type
    // reads as zero.
    let mut cache = new_cache(1);
    match cache.save_video_data(bytes(&[0x12, 0x77]), 1) {
        Ok(VideoSave::SequenceHeader(header)) => assert_eq!(header.record.to_vec(), vec![0x77]),
        _ => panic!("a sequence header was expected"),
    }
}

#[test]
fn replay_set_is_headers_then_gops() {
    let mut cache = new_cache(1);
    cache.save_video_data(bytes(&AVC_KEY_FRAME), 1).ok().expect("saved");
    cache.save_audio_data(bytes(&AAC_RAW), 2).ok().expect("saved");
    let header = match cache.save_video_data(bytes(&AVC_SEQ_HEADER), 3) {
        Ok(VideoSave::SequenceHeader(header)) => header,
        _ => panic!("a sequence header was expected"),
    };
    let info = AvcCodecInfo { profile: 66, level: 30, width: 640, height: 360 };
    cache.save_video_seq(header, Ok(info)).ok().expect("stored");
    cache.save_audio_data(bytes(&AAC_SEQ_HEADER), 4).ok().expect("saved");
    cache.save_metadata(bytes(&[0x02, 0x00]), 5);
    cache.save_video_data(bytes(&AVC_INTER_FRAME), 6).ok().expect("saved");

    assert_eq!(
        replay(&cache),
        vec![
            ('m', 5, vec![0x02, 0x00]),
            ('a', 4, AAC_SEQ_HEADER.to_vec()),
            ('v', 3, AVC_SEQ_HEADER.to_vec()),
            // The sequence header is a key frame: it has opened the group.
            ('v', 3, AVC_SEQ_HEADER.to_vec()),
            ('a', 4, AAC_SEQ_HEADER.to_vec()),
            ('v', 6, AVC_INTER_FRAME.to_vec()),
        ]
    );
}

#[test]
fn capacity_one_replays_from_the_last_key_frame() {
    let mut cache = new_cache(1);
    let k1 = [0x17, 0x01, 0, 0, 0, 1];
    let d1 = [0x27, 0x01, 0, 0, 0, 2];
    let k2 = [0x17, 0x01, 0, 0, 0, 3];
    cache.save_video_data(bytes(&k1), 1).ok().expect("saved");
    cache.save_video_data(bytes(&d1), 2).ok().expect("saved");
    cache.save_video_data(bytes(&k2), 3).ok().expect("saved");
    assert_eq!(replay(&cache), vec![('v', 3, k2.to_vec())]);
}

#[test]
fn capacity_zero_replays_headers_only() {
    let mut cache = new_cache(0);
    cache.save_metadata(bytes(&[1]), 1);
    cache.save_audio_data(bytes(&AAC_SEQ_HEADER), 2).ok().expect("saved");
    cache.save_audio_data(bytes(&AAC_RAW), 3).ok().expect("saved");
    cache.save_video_data(bytes(&AVC_KEY_FRAME), 4).ok().expect("saved");
    cache.save_video_data(bytes(&AVC_INTER_FRAME), 5).ok().expect("saved");
    assert!(cache.get_gops_data().is_none());
    assert_eq!(
        replay(&cache),
        vec![('m', 1, vec![1]), ('a', 2, AAC_SEQ_HEADER.to_vec())]
    );
}

#[test]
fn tags_tell_what_a_frame_is() {
    let aac_header = AudioTag {
        sound_format: 10,
        sound_rate: 3,
        sound_size: 1,
        sound_type: 1,
        aac_packet_type: 0,
    };
    assert!(aac_header.is_aac_sequence_header());
    assert!(!AudioTag { aac_packet_type: 1, ..aac_header }.is_aac_sequence_header());
    assert!(!AudioTag { sound_format: 2, ..aac_header }.is_aac_sequence_header());

    let header = VideoTag { frame_type: 1, codec_id: 7, avc_packet_type: 0 };
    assert!(header.is_key_frame());
    assert!(header.is_sequence_header());
    assert!(!VideoTag { avc_packet_type: 1, ..header }.is_sequence_header());
    assert!(!VideoTag { frame_type: 2, ..header }.is_sequence_header());
    assert!(!VideoTag { frame_type: 2, ..header }.is_key_frame());
}
