//! The transmitter of one stream. It keeps the stream's cache and its
//! subscribers, serves each subscriber that joins from the cache and hands
//! every live frame to all of them, in the order in which the frames come in.
//!
//! A transmitter decides; it does not wait. The task that drives it waits for
//! the next control event or the next frame, hands it over, and does what the
//! returned step asks for.

use std::collections::HashMap;
use vstd::prelude::*;
use vstd::std_specs::iter::IteratorSpec;
use xflv::errors::MpegAvcError;

use crate::buffer::bytes_of;
use crate::cache::errors::{CacheError, CacheErrorValue};
use crate::cache::{
    audio_failure, audio_notice_of, audio_saves, Cache, CacheState, VideoSave, VideoSequenceHeader,
};
use crate::channels::define::{
    frames_view, AvStatisticSender, ChannelData, ChannelDataConsumer, ChannelDataProducer,
    MediaFrame, TransmitterEvent, TransmitterEventConsumer,
};
use crate::channels::errors::{ChannelError, ChannelErrorValue};
use crate::channels::queue::{hand, handed};
use crate::codec::{video_payload_of, video_tag_of, video_tag_parses, AvcCodecInfo};
use crate::session::common::SubscriberInfo;
use crate::statistics::{AudioNotice, VideoNotice};

verus! {

/// What the queue of each subscriber of a stream has been handed so far, by
/// subscriber key.
pub type Deliveries = Map<u128, Seq<MediaFrame>>;

/// The deliveries after one live frame has gone out: every subscriber has the
/// frame behind what it had, but for those in `lost`, whose queue refused it.
pub open spec fn fan_out(subscribers: Deliveries, frame: MediaFrame, lost: Set<u128>) -> Deliveries {
    Map::new(
        |key: u128| subscribers.contains_key(key),
        |key: u128|
            if lost.contains(key) {
                subscribers[key]
            } else {
                subscribers[key].push(frame)
            },
    )
}

/// A transmitter as a mathematical value: the cache, and for each registered
/// subscriber the frames that were handed to its queue, first to last.
pub ghost struct TransmitterState {
    pub cache: CacheState,
    pub subscribers: Deliveries,
}

impl TransmitterState {
    /// The transmitter of a stream that has just been published.
    pub open spec fn fresh(
        app_name: Seq<char>,
        stream_name: Seq<char>,
        gop_num: nat,
    ) -> TransmitterState {
        TransmitterState {
            cache: CacheState::fresh(app_name, stream_name, gop_num),
            subscribers: Map::empty(),
        }
    }

    /// What a subscriber is sent when it joins: the replay set for a player,
    /// nothing for a publisher role.
    pub open spec fn greeting(self, player: bool) -> Seq<MediaFrame> {
        if player {
            self.cache.replay_set()
        } else {
            Seq::<MediaFrame>::empty()
        }
    }

    /// The transmitter after a queue has been registered under a key, with
    /// what the queue has been handed.
    pub open spec fn register(self, key: u128, log: Seq<MediaFrame>) -> TransmitterState {
        TransmitterState { subscribers: self.subscribers.insert(key, log), ..self }
    }

    /// The transmitter after a subscriber has joined with its queue: the
    /// queue has been handed the greeting, behind what it had been handed
    /// before, and is registered under the subscriber's key.
    pub open spec fn subscribe(
        self,
        key: u128,
        player: bool,
        queue: ChannelDataProducer,
    ) -> TransmitterState {
        self.register(key, handed(queue) + self.greeting(player))
    }

    /// The transmitter after a subscriber has left.
    pub open spec fn unsubscribe(self, key: u128) -> TransmitterState {
        TransmitterState { subscribers: self.subscribers.remove(key), ..self }
    }

    /// The transmitter after a live frame has gone out to the subscribers.
    pub open spec fn deliver(self, frame: MediaFrame, lost: Set<u128>) -> TransmitterState {
        TransmitterState { subscribers: fan_out(self.subscribers, frame, lost), ..self }
    }
}

/// What the driving task does after a control event.
pub enum TransmitterStep {
    /// Wait for the next input.
    Continue,
    /// The stream has been unpublished: leave the loop.
    Finished,
    /// Ask the statistics collaborator for a snapshot and send it here.
    Statistics { sender: AvStatisticSender },
}

/// What the driving task does after a frame.
#[allow(inconsistent_fields)]
pub enum DataStep {
    /// The frame is cached; it does not go out to the subscribers.
    Cached,
    /// An audio frame is cached and has gone out. `failed` holds the
    /// subscribers whose queue refused it.
    Audio { notice: AudioNotice, failed: Vec<u128> },
    /// A video frame is cached and has gone out. `failed` holds the
    /// subscribers whose queue refused it.
    Video { notice: VideoNotice, failed: Vec<u128> },
    /// A video sequence header has come in; nothing is cached yet. Decode
    /// its record and hand the outcome to `on_video_seq`, which takes the
    /// header in and sends it out.
    DecodeVideoSeq(VideoSequenceHeader),
}

pub struct Transmitter {
    subscriberid_to_producer: HashMap<u128, ChannelDataProducer>,
    cache: Cache,
}

impl View for Transmitter {
    type V = TransmitterState;

    closed spec fn view(&self) -> TransmitterState {
        TransmitterState {
            cache: self.cache@,
            subscribers: Map::new(
                |key: u128| self.subscriberid_to_producer@.contains_key(key),
                |key: u128| handed(self.subscriberid_to_producer@[key]),
            ),
        }
    }
}

/// A published stream that waits for a task to drive it: the transmitter and
/// the two queues that feed it.
pub struct StreamTask {
    pub transmitter: Transmitter,
    /// The frames of the publisher.
    pub data_consumer: ChannelDataConsumer,
    /// The control events of the broker.
    pub event_consumer: TransmitterEventConsumer,
}

impl Transmitter {
    pub fn new(app_name: String, stream_name: String, gop_num: usize) -> (transmitter: Self)
        ensures
            transmitter@ == TransmitterState::fresh(app_name@, stream_name@, gop_num as nat),
    {
        broadcast use vstd::std_specs::hash::group_hash_axioms;

        let transmitter = Self {
            subscriberid_to_producer: HashMap::new(),
            cache: Cache::new(app_name, stream_name, gop_num),
        };
        assert(transmitter@.subscribers =~= Map::<u128, Seq<MediaFrame>>::empty());
        transmitter
    }

    /// The cache of the stream.
    pub fn cache(&self) -> (cache: &Cache)
        ensures
            cache@ == self@.cache,
    {
        &self.cache
    }

    /// The number of registered subscribers.
    pub fn subscriber_count(&self) -> (n: usize)
        ensures
            n == self@.subscribers.dom().len(),
    {
        broadcast use vstd::std_specs::hash::group_hash_axioms;

        assert(self@.subscribers.dom() =~= self.subscriberid_to_producer@.dom());
        self.subscriberid_to_producer.len()
    }

    /// The step after the control queue has closed: the broker is gone,
    /// and the transmitter ends.
    pub fn on_closed(&self) -> (step: TransmitterStep)
        ensures
            step is Finished,
    {
        TransmitterStep::Finished
    }

    /// The step after an input that ended with an error. The error is for
    /// the log; one bad frame or one lost subscriber does not end the
    /// stream.
    pub fn on_error(&self, error: &ChannelError) -> (step: TransmitterStep)
        ensures
            step is Continue,
    {
        TransmitterStep::Continue
    }

    /// Handles one control event from the broker.
    ///
    /// A player that subscribes is first sent the replay set, in order, and
    /// is registered only when all of it went into its queue; if its queue
    /// refuses a frame, the subscriber is not registered and the error is
    /// returned. A publisher role is registered without replay.
    pub fn on_event(&mut self, event: TransmitterEvent) -> (r: Result<
        TransmitterStep,
        ChannelError,
    >)
        ensures
            match event {
                TransmitterEvent::Subscribe { producer, info } => match r {
                    Ok(step) => step is Continue && final(self)@ == old(self)@.subscribe(
                        info.key(),
                        info.sub_type.is_player(),
                        producer,
                    ),
                    Err(e) => {
                        &&& e.value is SendError
                        &&& info.sub_type.is_player()
                        &&& old(self)@.cache.replay_set().len() > 0
                        &&& final(self)@ == old(self)@
                    },
                },
                TransmitterEvent::UnSubscribe { info } => {
                    &&& r matches Ok(step)
                    &&& step is Continue
                    &&& final(self)@ == old(self)@.unsubscribe(info.key())
                },
                TransmitterEvent::UnPublish {  } => {
                    &&& r matches Ok(step)
                    &&& step is Finished
                    &&& final(self)@ == old(self)@
                },
                TransmitterEvent::Api { sender } => {
                    &&& r matches Ok(step)
                    &&& step == (TransmitterStep::Statistics { sender })
                    &&& final(self)@ == old(self)@
                },
            },
    {
        match event {
            TransmitterEvent::Subscribe { producer, info } => {
                let mut queue = producer;
                let replayed = if info.sub_type.is_player() {
                    self.replay(&mut queue)
                } else {
                    true
                };
                proof {
                    if !info.sub_type.is_player() {
                        assert(handed(producer) + Seq::<MediaFrame>::empty() =~= handed(producer));
                    }
                }
                self.joined(queue, info, replayed)
            },
            TransmitterEvent::UnSubscribe { info } => {
                self.unsubscribe(info);
                Ok(TransmitterStep::Continue)
            },
            TransmitterEvent::UnPublish {  } => Ok(TransmitterStep::Finished),
            TransmitterEvent::Api { sender } => Ok(TransmitterStep::Statistics { sender }),
        }
    }

    /// Hands the replay set to a queue, frame by frame and in order, and
    /// stops at the first frame that the queue refuses. Tells whether the
    /// queue took all of it; then the queue has been handed exactly the
    /// replay set, behind what it had been handed before.
    fn replay(&self, queue: &mut ChannelDataProducer) -> (replayed: bool)
        ensures
            replayed ==> handed(*final(queue)) == handed(*old(queue)) + self@.cache.replay_set(),
            self@.cache.replay_set().len() == 0 ==> replayed,
    {
        let replay = self.cache.get_replay_set();
        let ghost all = replay@;
        let ghost start = handed(*queue);
        assert(frames_view(all).len() == all.len());
        assert(start + frames_view(all).take(0) =~= start);
        for frame in it: replay
            invariant
                it.seq() == all,
                frames_view(all) == self@.cache.replay_set(),
                handed(*queue) == start + frames_view(all).take(it.index() as int),
        {
            let ghost at = it.index() as int;
            assert(frame == all[at]);
            if !hand(queue, frame) {
                return false;
            }
            assert(handed(*queue) =~= start + frames_view(all).take(at + 1));
        }
        assert(frames_view(all).take(all.len() as int) =~= frames_view(all));
        true
    }

    /// Ends a subscribe request once the replay is over. A subscriber whose
    /// queue took the whole replay is registered with its queue; one whose
    /// queue refused a frame is not, and the transmitter stays as it was.
    fn joined(&mut self, producer: ChannelDataProducer, info: SubscriberInfo, replayed: bool) -> (r:
        Result<TransmitterStep, ChannelError>)
        ensures
            replayed ==> (r matches Ok(step) && step is Continue) && final(self)@ == old(
                self,
            )@.register(info.key(), handed(producer)),
            !replayed ==> (r matches Err(e) && e.value is SendError) && final(self)@ == old(self)@,
    {
        broadcast use vstd::std_specs::hash::group_hash_axioms;

        if !replayed {
            return Err(ChannelError { value: ChannelErrorValue::SendError });
        }
        let ghost before = self@;
        let key = info.key();
        self.subscriberid_to_producer.insert(key, producer);
        assert(self@.subscribers =~= before.subscribers.insert(key, handed(producer)));
        Ok(TransmitterStep::Continue)
    }

    fn unsubscribe(&mut self, info: SubscriberInfo)
        ensures
            final(self)@ == old(self)@.unsubscribe(info.key()),
    {
        broadcast use vstd::std_specs::hash::group_hash_axioms;

        let ghost before = self@;
        let key = info.key();
        self.subscriberid_to_producer.remove(&key);
        assert(self@.subscribers =~= before.subscribers.remove(key));
    }

    /// The keys of the registered subscribers, each once.
    fn keys(&self) -> (keys: Vec<u128>)
        ensures
            keys@.no_duplicates(),
            forall|key: u128| keys@.contains(key) <==> self@.subscribers.contains_key(key),
    {
        broadcast use vstd::std_specs::hash::group_hash_axioms;

        let ghost pairs = vstd::std_specs::hash::spec_hash_map_iter(
            &self.subscriberid_to_producer,
        ).remaining();
        let mut keys: Vec<u128> = Vec::new();
        proof {
            vstd::std_specs::hash::axiom_spec_hash_map_iter(&self.subscriberid_to_producer);
        }
        for (key, queue) in it: self.subscriberid_to_producer.iter()
            invariant
                pairs == it.seq(),
                pairs.no_duplicates(),
                forall|i: int|
                    0 <= i < pairs.len() ==> self.subscriberid_to_producer@.contains_key(
                        *(#[trigger] pairs[i]).0,
                    ) && self.subscriberid_to_producer@[*pairs[i].0] == *pairs[i].1,
                keys@.len() == it.index(),
                forall|i: int| 0 <= i < keys@.len() ==> #[trigger] keys@[i] == *pairs[i].0,
        {
            assert(pairs[it.index() as int] == (key, queue));
            keys.push(*key);
        }
        proof {
            lemma_distinct_keys(pairs, self.subscriberid_to_producer@);
            assert(keys@.len() == pairs.len());
            assert forall|key: u128| self@.subscribers.contains_key(key) implies keys@.contains(
                key,
            ) by {
                let pair = (&key, &self.subscriberid_to_producer@[key]);
                assert(pairs.contains(pair));
                let i = choose|i: int| 0 <= i < pairs.len() && pairs[i] == pair;
                assert(keys@[i] == key);
            }
            assert forall|key: u128| keys@.contains(key) implies self@.subscribers.contains_key(
                key,
            ) by {
                let i = choose|i: int| 0 <= i < keys@.len() && keys@[i] == key;
                assert(*pairs[i].0 == key);
            }
        }
        keys
    }

    /// Hands one live frame to the queue of every registered subscriber. A
    /// queue that refuses the frame does not stop the others and does not
    /// cost its subscriber the registration; its key is reported.
    fn send_to_all(&mut self, frame: &ChannelData) -> (failed: Vec<u128>)
        ensures
            final(self)@ == old(self)@.deliver(frame@, failed@.to_set()),
            failed@.no_duplicates(),
            forall|key: u128|
                failed@.contains(key) ==> #[trigger] old(self)@.subscribers.contains_key(key),
    {
        broadcast use vstd::std_specs::hash::group_hash_axioms;

        let keys = self.keys();
        let ghost before = self.subscriberid_to_producer@;
        let ghost cache = self.cache@;
        let mut failed: Vec<u128> = Vec::new();
        let mut i: usize = 0;
        while i < keys.len()
            invariant
                i <= keys.len(),
                self.cache@ == cache,
                keys@.no_duplicates(),
                forall|key: u128| keys@.contains(key) <==> before.contains_key(key),
                self.subscriberid_to_producer@.dom() == before.dom(),
                failed@.no_duplicates(),
                forall|key: u128| failed@.contains(key) ==> exists|j: int|
                    0 <= j < i && #[trigger] keys@[j] == key,
                forall|j: int|
                    0 <= j < i ==> handed(self.subscriberid_to_producer@[#[trigger] keys@[j]]) == (
                    if failed@.contains(keys@[j]) {
                        handed(before[keys@[j]])
                    } else {
                        handed(before[keys@[j]]).push(frame@)
                    }),
                forall|j: int|
                    i <= j < keys.len() ==> self.subscriberid_to_producer@[#[trigger] keys@[j]]
                        == before[keys@[j]],
            decreases keys.len() - i,
        {
            let key = keys[i];
            let ghost at = i as int;
            let ghost refused = failed@;
            let ghost map = self.subscriberid_to_producer@;
            assert(keys@.contains(keys@[at]));
            assert(!refused.contains(key)) by {
                if refused.contains(key) {
                    let j = choose|j: int| 0 <= j < at && #[trigger] keys@[j] == key;
                    assert(keys@[j] == keys@[at]);
                }
            }
            match self.subscriberid_to_producer.remove(&key) {
                Some(queue) => {
                    let mut queue = queue;
                    if !hand(&mut queue, frame.clone()) {
                        failed.push(key);
                        proof {
                            lemma_push_fresh(refused, key);
                        }
                    }
                    self.subscriberid_to_producer.insert(key, queue);
                },
                None => {},
            }
            i = i + 1;
            proof {
                assert(self.subscriberid_to_producer@.dom() =~= before.dom());
                assert forall|k: u128| failed@.contains(k) implies exists|j: int|
                    0 <= j < i && #[trigger] keys@[j] == k by {
                    if refused.contains(k) {
                        let j = choose|j: int| 0 <= j < at && #[trigger] keys@[j] == k;
                        assert(0 <= j < i && keys@[j] == k);
                    } else {
                        assert(0 <= at < i && keys@[at] == k);
                    }
                }
                assert forall|j: int| 0 <= j < i implies handed(
                    self.subscriberid_to_producer@[#[trigger] keys@[j]],
                ) == (if failed@.contains(keys@[j]) {
                    handed(before[keys@[j]])
                } else {
                    handed(before[keys@[j]]).push(frame@)
                }) by {
                    if j < at {
                        assert(keys@[j] != keys@[at]);
                        assert(self.subscriberid_to_producer@[keys@[j]] == map[keys@[j]]);
                    }
                }
                assert forall|j: int| i <= j < keys.len() implies self.subscriberid_to_producer@[
                #[trigger] keys@[j]] == before[keys@[j]] by {
                    assert(keys@[j] != keys@[at]);
                    assert(self.subscriberid_to_producer@[keys@[j]] == map[keys@[j]]);
                }
            }
        }
        assert(self@.subscribers =~= fan_out(old(self)@.subscribers, frame@, failed@.to_set())) by {
            assert forall|k: u128| before.contains_key(k) implies handed(
                self.subscriberid_to_producer@[k],
            ) == (if failed@.to_set().contains(k) {
                handed(before[k])
            } else {
                handed(before[k]).push(frame@)
            }) by {
                assert(keys@.contains(k));
                let j = choose|j: int| 0 <= j < keys@.len() && keys@[j] == k;
                assert(keys@[j] == k);
            }
        }
        assert forall|key: u128| failed@.contains(key) implies #[trigger] old(
            self,
        )@.subscribers.contains_key(key) by {
            let j = choose|j: int| 0 <= j < i && #[trigger] keys@[j] == key;
            assert(keys@.contains(keys@[j]));
        }
        failed
    }

    /// Handles one frame from the publisher.
    ///
    /// Metadata is cached and goes to no subscriber: it reaches those who
    /// join later. An audio or video frame is cached and then handed to
    /// every registered subscriber. A frame that cannot be classified is
    /// reported and goes to nobody. A video sequence header comes back to be
    /// decoded first.
    pub fn on_data(&mut self, data: ChannelData) -> (r: Result<DataStep, ChannelError>)
        ensures
            match data {
                ChannelData::MetaData { timestamp, data: body } => {
                    &&& r matches Ok(step)
                    &&& step is Cached
                    &&& final(self)@.cache == old(self)@.cache.save_metadata(
                        bytes_of(body),
                        timestamp,
                    )
                    &&& final(self)@.subscribers == old(self)@.subscribers
                },
                ChannelData::Audio { timestamp, data: body } => {
                    &&& final(self)@.cache == old(self)@.cache.save_audio(bytes_of(body), timestamp)
                    &&& match r {
                        Ok(DataStep::Audio { notice, failed }) => {
                            &&& audio_saves(bytes_of(body))
                            &&& notice == audio_notice_of(
                                bytes_of(body),
                                old(self)@.cache.audio_seq_frame() is None,
                            )
                            &&& final(self)@.subscribers == fan_out(
                                old(self)@.subscribers,
                                data@,
                                failed@.to_set(),
                            )
                            &&& failed@.no_duplicates()
                            &&& failed@.to_set().subset_of(old(self)@.subscribers.dom())
                        },
                        Ok(_) => false,
                        Err(e) => {
                            &&& e.value matches ChannelErrorValue::CacheError(reason)
                            &&& audio_failure(bytes_of(body), reason.value)
                            &&& final(self)@.subscribers == old(self)@.subscribers
                        },
                    }
                },
                ChannelData::Video { timestamp, data: body } => {
                    &&& final(self)@.cache == old(self)@.cache.save_video(bytes_of(body), timestamp)
                    &&& match r {
                        Ok(DataStep::Video { notice, failed }) => {
                            &&& video_tag_parses(bytes_of(body))
                            &&& !video_tag_of(bytes_of(body)).is_sequence_header()
                            &&& notice == VideoNotice {
                                codec: None,
                                size: bytes_of(body).len() as usize,
                                is_key_frame: video_tag_of(bytes_of(body)).is_key_frame(),
                            }
                            &&& final(self)@.subscribers == fan_out(
                                old(self)@.subscribers,
                                data@,
                                failed@.to_set(),
                            )
                            &&& failed@.no_duplicates()
                            &&& failed@.to_set().subset_of(old(self)@.subscribers.dom())
                        },
                        Ok(DataStep::DecodeVideoSeq(header)) => {
                            &&& video_tag_parses(bytes_of(body))
                            &&& video_tag_of(bytes_of(body)).is_sequence_header()
                            &&& bytes_of(header.chunk_body) == bytes_of(body)
                            &&& header.timestamp == timestamp
                            &&& bytes_of(header.record) == video_payload_of(bytes_of(body))
                            &&& final(self)@.subscribers == old(self)@.subscribers
                        },
                        Ok(_) => false,
                        Err(e) => {
                            &&& !video_tag_parses(bytes_of(body))
                            &&& e.value matches ChannelErrorValue::CacheError(reason)
                            &&& reason.value is DemuxerError
                            &&& final(self)@.subscribers == old(self)@.subscribers
                        },
                    }
                },
            },
    {
        let ghost before = self@;
        match data {
            ChannelData::MetaData { timestamp, data } => {
                self.cache.save_metadata(data, timestamp);
                assert(self@.subscribers =~= before.subscribers);
                Ok(DataStep::Cached)
            },
            ChannelData::Audio { timestamp, data } => {
                let saved = self.cache.save_audio_data(data.clone(), timestamp);
                assert(self@.subscribers =~= before.subscribers);
                match saved {
                    Ok(notice) => {
                        let frame = ChannelData::Audio { timestamp, data };
                        let failed = self.send_to_all(&frame);
                        Ok(DataStep::Audio { notice, failed })
                    },
                    Err(err) => Err(ChannelError { value: ChannelErrorValue::CacheError(err) }),
                }
            },
            ChannelData::Video { timestamp, data } => {
                let saved = self.cache.save_video_data(data.clone(), timestamp);
                assert(self@.subscribers =~= before.subscribers);
                match saved {
                    Ok(VideoSave::Saved(notice)) => {
                        let frame = ChannelData::Video { timestamp, data };
                        let failed = self.send_to_all(&frame);
                        Ok(DataStep::Video { notice, failed })
                    },
                    Ok(VideoSave::SequenceHeader(header)) => Ok(DataStep::DecodeVideoSeq(header)),
                    Err(err) => Err(ChannelError { value: ChannelErrorValue::CacheError(err) }),
                }
            },
        }
    }

    /// Finishes a video sequence header with the outcome of decoding its
    /// record. A decoded record makes the header the stored one, and the
    /// frame goes out to every registered subscriber. A record that could
    /// not be decoded is reported, and the frame goes to nobody.
    pub fn on_video_seq(
        &mut self,
        header: VideoSequenceHeader,
        decoded: Result<AvcCodecInfo, MpegAvcError>,
    ) -> (r: Result<DataStep, ChannelError>)
        ensures
            match decoded {
                Ok(info) => {
                    &&& r matches Ok(DataStep::Video { notice, failed })
                    &&& notice == VideoNotice {
                        codec: Some(info),
                        size: bytes_of(header.chunk_body).len() as usize,
                        is_key_frame: true,
                    }
                    &&& final(self)@.cache == old(self)@.cache.save_video_seq(
                        bytes_of(header.chunk_body),
                        header.timestamp,
                    )
                    &&& final(self)@.subscribers == fan_out(
                        old(self)@.subscribers,
                        MediaFrame::video(header.timestamp, bytes_of(header.chunk_body)),
                        failed@.to_set(),
                    )
                    &&& failed@.no_duplicates()
                    &&& failed@.to_set().subset_of(old(self)@.subscribers.dom())
                },
                Err(err) => {
                    &&& r matches Err(e)
                    &&& e.value == ChannelErrorValue::CacheError(
                        CacheError { value: CacheErrorValue::MpegAvcError(err) },
                    )
                    &&& final(self)@ == old(self)@
                },
            },
    {
        let ghost before = self@;
        let frame = ChannelData::Video {
            timestamp: header.timestamp,
            data: header.chunk_body.clone(),
        };
        match self.cache.save_video_seq(header, decoded) {
            Ok(notice) => {
                assert(self@.subscribers =~= before.subscribers);
                let failed = self.send_to_all(&frame);
                Ok(DataStep::Video { notice, failed })
            },
            Err(err) => {
                assert(self@.subscribers =~= before.subscribers);
                Err(ChannelError { value: ChannelErrorValue::CacheError(err) })
            },
        }
    }
}

/// A live frame together with the subscribers whose queue refused it.
pub type Delivery = (MediaFrame, Set<u128>);

/// The deliveries after a run of live frames has gone out, first to last.
pub open spec fn fan_out_all(subscribers: Deliveries, run: Seq<Delivery>) -> Deliveries
    decreases run.len(),
{
    if run.len() == 0 {
        subscribers
    } else {
        fan_out(fan_out_all(subscribers, run.drop_last()), run.last().0, run.last().1)
    }
}

/// The frames of a run that the queue of `key` took, in the order of the run.
pub open spec fn taken_by(key: u128, run: Seq<Delivery>) -> Seq<MediaFrame>
    decreases run.len(),
{
    if run.len() == 0 {
        Seq::<MediaFrame>::empty()
    } else if run.last().1.contains(key) {
        taken_by(key, run.drop_last())
    } else {
        taken_by(key, run.drop_last()).push(run.last().0)
    }
}

/// The frames of a run, in the order of the run.
pub open spec fn frames_of(run: Seq<Delivery>) -> Seq<MediaFrame> {
    Seq::new(run.len(), |i: int| run[i].0)
}

/// Live frames neither add nor remove a subscriber, and each subscriber is
/// sent the frames that its queue took in the order in which the publisher
/// sent them, behind what it had been sent before.
pub proof fn law_fan_out_keeps_order(subscribers: Deliveries, run: Seq<Delivery>, key: u128)
    requires
        subscribers.contains_key(key),
    ensures
        fan_out_all(subscribers, run).dom() == subscribers.dom(),
        fan_out_all(subscribers, run)[key] == subscribers[key] + taken_by(key, run),
    decreases run.len(),
{
    if run.len() == 0 {
        assert(subscribers[key] + taken_by(key, run) =~= subscribers[key]);
    } else {
        law_fan_out_keeps_order(subscribers, run.drop_last(), key);
        let earlier = fan_out_all(subscribers, run.drop_last());
        assert(fan_out_all(subscribers, run).dom() =~= earlier.dom());
        assert(fan_out_all(subscribers, run)[key] =~= subscribers[key] + taken_by(key, run));
    }
}

/// A subscriber whose queue takes every frame has been sent all the frames
/// of a run, in the order in which the publisher sent them.
pub proof fn law_fan_out_delivers_every_frame(
    subscribers: Deliveries,
    run: Seq<Delivery>,
    key: u128,
)
    requires
        subscribers.contains_key(key),
        forall|i: int| 0 <= i < run.len() ==> !(#[trigger] run[i]).1.contains(key),
    ensures
        fan_out_all(subscribers, run)[key] == subscribers[key] + frames_of(run),
{
    law_fan_out_keeps_order(subscribers, run, key);
    lemma_taken_all(key, run);
}

/// A player that joins is sent the replay set first (metadata, audio
/// sequence header and video sequence header as far as they are stored,
/// then the cached groups, oldest first) and behind it the live frames that
/// follow, in their order; no live frame comes before the replay ends.
pub proof fn law_replay_precedes_live(
    state: TransmitterState,
    key: u128,
    queue: ChannelDataProducer,
    run: Seq<Delivery>,
)
    requires
        forall|i: int| 0 <= i < run.len() ==> !(#[trigger] run[i]).1.contains(key),
    ensures
        fan_out_all(state.subscribe(key, true, queue).subscribers, run)[key] == handed(queue)
            + state.cache.headers()
            + state.cache.gop_frames() + frames_of(run),
{
    law_fan_out_delivers_every_frame(state.subscribe(key, true, queue).subscribers, run, key);
}

proof fn lemma_taken_all(key: u128, run: Seq<Delivery>)
    requires
        forall|i: int| 0 <= i < run.len() ==> !(#[trigger] run[i]).1.contains(key),
    ensures
        taken_by(key, run) == frames_of(run),
    decreases run.len(),
{
    if run.len() == 0 {
        assert(taken_by(key, run) =~= frames_of(run));
    } else {
        lemma_taken_all(key, run.drop_last());
        assert(!run[run.len() - 1].1.contains(key));
        assert(frames_of(run.drop_last()).push(run.last().0) =~= frames_of(run));
    }
}

/// The pairs that a walk over a map yields have distinct keys, since they are
/// distinct pairs and each key has one value.
proof fn lemma_distinct_keys<V>(pairs: Seq<(&u128, &V)>, map: Map<u128, V>)
    requires
        pairs.no_duplicates(),
        forall|i: int|
            0 <= i < pairs.len() ==> map.contains_key(*(#[trigger] pairs[i]).0) && map[*pairs[i].0]
                == *pairs[i].1,
    ensures
        forall|i: int, j: int|
            0 <= i < pairs.len() && 0 <= j < pairs.len() && i != j ==> *(#[trigger] pairs[i]).0 != *(
            #[trigger] pairs[j]).0,
{
    assert forall|i: int, j: int|
        0 <= i < pairs.len() && 0 <= j < pairs.len() && i != j implies *(#[trigger] pairs[i]).0 != *(
    #[trigger] pairs[j]).0 by {
        if *pairs[i].0 == *pairs[j].0 {
            assert(*pairs[i].1 == *pairs[j].1);
            assert(pairs[i] == pairs[j]);
        }
    }
}

/// Pushing a value that a duplicate-free run does not hold keeps the run
/// free of duplicates, and the run then holds that value besides.
proof fn lemma_push_fresh(run: Seq<u128>, value: u128)
    requires
        run.no_duplicates(),
        !run.contains(value),
    ensures
        run.push(value).no_duplicates(),
        forall|k: u128| run.push(value).contains(k) <==> run.contains(k) || k == value,
{
    let pushed = run.push(value);
    assert forall|a: int, b: int|
        0 <= a < pushed.len() && 0 <= b < pushed.len() && a != b implies pushed[a] != pushed[b] by {
        if a == run.len() {
            assert(run.contains(run[b]));
        } else if b == run.len() {
            assert(run.contains(run[a]));
        }
    }
    assert forall|k: u128| pushed.contains(k) implies run.contains(k) || k == value by {
        let j = choose|j: int| 0 <= j < pushed.len() && pushed[j] == k;
        if j < run.len() {
            assert(run[j] == k);
        }
    }
    assert forall|k: u128| run.contains(k) || k == value implies pushed.contains(k) by {
        if run.contains(k) {
            let j = choose|j: int| 0 <= j < run.len() && run[j] == k;
            assert(pushed[j] == k);
        } else {
            assert(pushed[run.len() as int] == k);
        }
    }
}

} // verus!
