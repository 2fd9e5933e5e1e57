use bytes::BytesMut;
use gms::cache::gop::{Gop, Gops};
use gms::channels::define::ChannelData;

fn video(timestamp: u32, bytes: &[u8]) -> ChannelData {
    ChannelData::Video { timestamp, data: BytesMut::from(bytes) }
}

fn audio(timestamp: u32, bytes: &[u8]) -> ChannelData {
    ChannelData::Audio { timestamp, data: BytesMut::from(bytes) }
}

fn describe(frame: &ChannelData) -> (char, u32, Vec<u8>) {
    match frame {
        ChannelData::Video { timestamp, data } => ('v', *timestamp, data.to_vec()),
        ChannelData::Audio { timestamp, data } => ('a', *timestamp, data.to_vec()),
        ChannelData::MetaData { timestamp, data } => ('m', *timestamp, data.to_vec()),
    }
}

fn window(gops: &Gops) -> Vec<Vec<(char, u32, Vec<u8>)>> {
    gops.get_gops()
        .into_iter()
        .map(|gop| gop.get_frame_data().iter().map(describe).collect())
        .collect()
}

#[test]
fn new_gop_is_empty() {
    let gop = Gop::new();
    assert_eq!(gop.len(), 0);
    assert!(gop.is_empty());
    assert!(gop.get_frame_data().is_empty());
    assert!(Gop::default().is_empty());
}

#[test]
fn gop_duplicate_copies_every_frame() {
    let mut gops = Gops::new(1);
    gops.save_frame_data(video(1, &[1, 2]), true);
    gops.save_frame_data(audio(2, &[3]), false);
    let held = gops.get_gops();
    assert_eq!(held.len(), 1);
    let copy = held[0].duplicate();
    assert_eq!(copy.len(), 2);
    assert!(!copy.is_empty());
    let frames: Vec<_> = copy.get_frame_data().iter().map(describe).collect();
    assert_eq!(frames, vec![('v', 1, vec![1, 2]), ('a', 2, vec![3])]);
}

#[test]
fn new_window_holds_one_empty_gop() {
    let gops = Gops::new(3);
    assert!(gops.setted());
    assert_eq!(window(&gops), vec![Vec::<(char, u32, Vec<u8>)>::new()]);
}

#[test]
fn default_window_has_capacity_one() {
    let mut gops = Gops::default();
    assert!(gops.setted());
    gops.save_frame_data(video(1, &[1]), true);
    gops.save_frame_data(video(2, &[2]), true);
    assert_eq!(window(&gops), vec![vec![('v', 2, vec![2])]]);
}

#[test]
fn capacity_zero_keeps_nothing() {
    let mut gops = Gops::new(0);
    assert!(!gops.setted());
    gops.save_frame_data(video(1, &[1]), true);
    gops.save_frame_data(audio(2, &[2]), false);
    gops.save_frame_data(video(3, &[3]), false);
    assert_eq!(window(&gops), vec![Vec::<(char, u32, Vec<u8>)>::new()]);
}

#[test]
fn capacity_one_restarts_at_each_key_frame() {
    let mut gops = Gops::new(1);
    gops.save_frame_data(video(10, b"K1"), true);
    gops.save_frame_data(video(20, b"D1"), false);
    assert_eq!(
        window(&gops),
        vec![vec![('v', 10, b"K1".to_vec()), ('v', 20, b"D1".to_vec())]]
    );
    gops.save_frame_data(video(30, b"K2"), true);
    assert_eq!(window(&gops), vec![vec![('v', 30, b"K2".to_vec())]]);
}

#[test]
fn frames_without_key_flag_join_the_current_gop() {
    let mut gops = Gops::new(1);
    gops.save_frame_data(audio(1, &[9]), false);
    gops.save_frame_data(video(2, &[8]), false);
    gops.save_frame_data(audio(3, &[7]), false);
    assert_eq!(
        window(&gops),
        vec![vec![('a', 1, vec![9]), ('v', 2, vec![8]), ('a', 3, vec![7])]]
    );
}

#[test]
fn window_never_holds_more_gops_than_its_capacity() {
    for capacity in 1..5usize {
        let mut gops = Gops::new(capacity);
        for step in 0..40u32 {
            gops.save_frame_data(video(step, &[step as u8]), step % 3 == 0);
            assert!(gops.get_gops().len() <= capacity);
            assert!(gops.get_gops().len() >= 1);
        }
    }
}

#[test]
fn larger_capacity_evicts_only_when_full() {
    // The window starts with one group. With a capacity of two it is not at
    // capacity, so a key frame joins the current group and nothing is lost.
    let mut gops = Gops::new(2);
    gops.save_frame_data(video(1, b"K1"), true);
    gops.save_frame_data(video(2, b"D1"), false);
    gops.save_frame_data(video(3, b"K2"), true);
    assert_eq!(
        window(&gops),
        vec![vec![
            ('v', 1, b"K1".to_vec()),
            ('v', 2, b"D1".to_vec()),
            ('v', 3, b"K2".to_vec())
        ]]
    );
}
