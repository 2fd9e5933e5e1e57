//! The broker: the registry of the streams that are being published, and
//! the one place where sessions publish, subscribe and leave.

use vstd::prelude::*;

use crate::channels::define::{
    AvStatisticSender, ChannelDataConsumer, ChannelDataProducer, ChannelEvent,
    ChannelEventConsumer, ChannelEventProducer, ClientEvent, ClientEventConsumer,
    ClientEventProducer, ClientIntent, StreamId, StreamStatisticSizeSender, TransmitterEvent,
    TransmitterEventProducer,
};
use crate::channels::errors::{ChannelError, ChannelErrorValue};
use crate::channels::queue::{notice, notice_queue, noticed};
use crate::channels::transmitter::{StreamTask, Transmitter, TransmitterState};
use crate::session::common::SubscriberInfo;

verus! {

/// Number of notices to relay clients that the broker keeps for a receiver
/// that lags behind.
pub const CLIENT_EVENT_CAPACITY: usize = 100;

/// A control event as a mathematical value.
pub ghost enum ControlEvent {
    /// A subscriber joins, with the sending end of its queue.
    Subscribe { key: u128, player: bool, queue: ChannelDataProducer },
    UnSubscribe { key: u128 },
    UnPublish,
    /// The stream's statistics are asked for, to be sent to `sender`.
    Api { sender: AvStatisticSender },
}

impl View for TransmitterEvent {
    type V = ControlEvent;

    open spec fn view(&self) -> ControlEvent {
        match *self {
            TransmitterEvent::Subscribe { producer, info } => ControlEvent::Subscribe {
                key: info.key(),
                player: info.sub_type.is_player(),
                queue: producer,
            },
            TransmitterEvent::UnSubscribe { info } => ControlEvent::UnSubscribe { key: info.key() },
            TransmitterEvent::UnPublish {  } => ControlEvent::UnPublish,
            TransmitterEvent::Api { sender } => ControlEvent::Api { sender },
        }
    }
}

/// One thing that the broker has handed to a queue.
pub ghost enum Outgoing {
    /// A control event, to the transmitter of a stream.
    Control { stream: StreamId, event: ControlEvent },
    /// The number of live streams, to a statistics query.
    StreamCount { count: nat },
    /// The answer to a publish request, to the session that asked: the
    /// handle on which the publisher sends its frames.
    PublishAnswer { stream: StreamId, feed: ChannelDataProducer },
    /// The answer to a subscribe request, to the session that asked: the
    /// handle on which the subscriber gets its frames.
    SubscribeAnswer { stream: StreamId, key: u128, outlet: ChannelDataConsumer },
}

/// The handles that belong to one live stream.
pub ghost struct StreamHandles {
    /// The queue to the stream's transmitter, as the registry holds it.
    pub control: TransmitterEventProducer,
    /// The queue on which the stream's publisher sends its frames, as the
    /// publish request handed it out.
    pub feed: ChannelDataProducer,
}

/// The broker as a mathematical value.
pub ghost struct BrokerState {
    /// The application names under which a stream has been published.
    pub apps: Set<Seq<char>>,
    /// The streams that are being published, in the order of publication.
    pub streams: Seq<StreamId>,
    /// The handles of the streams that are being published, stream by
    /// stream in the same order.
    pub handles: Seq<StreamHandles>,
    /// The receiving ends handed out to subscribers: for each subscribe
    /// event that went to a transmitter, in the order of `sent`, the end on
    /// which that subscriber gets its frames.
    pub outlets: Seq<ChannelDataConsumer>,
    pub gop_num: nat,
    pub push_enabled: bool,
    pub pull_enabled: bool,
    pub hls_enabled: bool,
    /// What the broker has handed to the queues of transmitters and of
    /// sessions so far, first to last.
    pub sent: Seq<Outgoing>,
    /// The notices that the broker has handed to the relay clients' queue
    /// so far, first to last.
    pub notices: Seq<ClientIntent>,
    /// The transmitters of published streams that no task drives yet.
    pub launching: Seq<TransmitterState>,
    /// Whether the receiving end of the request queue is still to be taken.
    pub holds_requests: bool,
    /// The broker's handle on the queue on which sessions send their
    /// requests.
    pub requests: ChannelEventProducer,
}

impl BrokerState {
    /// No stream is registered twice, each is registered under a known
    /// application name, and each has its handles.
    pub open spec fn wf(self) -> bool {
        &&& self.streams.no_duplicates()
        &&& forall|i: int|
            0 <= i < self.streams.len() ==> self.apps.contains((#[trigger] self.streams[i]).0)
        &&& self.handles.len() == self.streams.len()
    }

    /// The broker before any request, with the queue on which the requests
    /// will come in.
    pub open spec fn fresh(requests: ChannelEventProducer) -> BrokerState {
        BrokerState {
            apps: Set::empty(),
            streams: Seq::empty(),
            handles: Seq::empty(),
            outlets: Seq::empty(),
            gop_num: 1,
            push_enabled: false,
            pull_enabled: false,
            hls_enabled: false,
            sent: Seq::empty(),
            notices: Seq::empty(),
            launching: Seq::empty(),
            holds_requests: true,
            requests,
        }
    }

    pub open spec fn is_publishing(self, stream: StreamId) -> bool {
        self.streams.contains(stream)
    }

    pub open spec fn knows_app(self, app_name: Seq<char>) -> bool {
        self.apps.contains(app_name)
    }

    /// Whether relay clients are told of a new stream.
    pub open spec fn announces_publish(self) -> bool {
        self.push_enabled || self.hls_enabled
    }

    /// Why a request that needs a live stream is turned down; `None` where
    /// the stream is being published.
    pub open spec fn refusal(self, stream: StreamId) -> Option<ChannelErrorValue> {
        if !self.knows_app(stream.0) {
            Some(ChannelErrorValue::NoAppName)
        } else if !self.is_publishing(stream) {
            Some(ChannelErrorValue::NoStreamName)
        } else {
            None
        }
    }

    /// The handles of a live stream.
    pub open spec fn handles_of(self, stream: StreamId) -> StreamHandles
        recommends
            self.is_publishing(stream),
    {
        self.handles[self.streams.index_of(stream)]
    }

    /// The broker after a stream has been entered with its handles.
    pub open spec fn register(self, stream: StreamId, handles: StreamHandles) -> BrokerState {
        BrokerState {
            apps: self.apps.insert(stream.0),
            streams: self.streams.push(stream),
            handles: self.handles.push(handles),
            launching: self.launching.push(
                TransmitterState::fresh(stream.0, stream.1, self.gop_num),
            ),
            ..self
        }
    }

    /// The broker after a stream has been struck. Its application name
    /// stays known.
    pub open spec fn unregister(self, stream: StreamId) -> BrokerState {
        BrokerState {
            streams: self.streams.remove(self.streams.index_of(stream)),
            handles: self.handles.remove(self.streams.index_of(stream)),
            ..self
        }
    }

    /// The broker before the last thing was handed to a queue.
    pub open spec fn unrecord(self) -> BrokerState {
        BrokerState { sent: self.sent.drop_last(), ..self }
    }

    /// The sending end that went out with the last thing handed to a queue,
    /// where that was a subscribe event.
    pub open spec fn last_queue(self) -> ChannelDataProducer {
        match self.sent.last() {
            Outgoing::Control {
                stream,
                event: ControlEvent::Subscribe { key, player, queue },
            } => queue,
            _ => arbitrary(),
        }
    }

    /// The broker after a queue has been made for a subscriber: its sending
    /// end has gone to the stream's transmitter with the subscribe event,
    /// and its receiving end is for the subscriber.
    pub open spec fn let_in(
        self,
        stream: StreamId,
        key: u128,
        player: bool,
        queue: ChannelDataProducer,
        outlet: ChannelDataConsumer,
    ) -> BrokerState {
        BrokerState {
            outlets: self.outlets.push(outlet),
            ..self.forward(stream, ControlEvent::Subscribe { key, player, queue })
        }
    }

    /// The broker after something has been handed to a queue.
    pub open spec fn record(self, out: Outgoing) -> BrokerState {
        BrokerState { sent: self.sent.push(out), ..self }
    }

    /// The broker after a control event has gone to a stream's transmitter.
    pub open spec fn forward(self, stream: StreamId, event: ControlEvent) -> BrokerState {
        self.record(Outgoing::Control { stream, event })
    }

    /// The broker after a notice has gone to the relay clients.
    pub open spec fn emit(self, intent: ClientIntent) -> BrokerState {
        BrokerState { notices: self.notices.push(intent), ..self }
    }

    /// How a publish request may end.
    ///
    /// A stream that is being published is not published again, and
    /// nothing changes. Any other is entered with its handles. Where relay
    /// clients are to be told, the notice follows, and it is recorded if a
    /// relay client was there to take it; the publish succeeds either way.
    pub open spec fn published(
        self,
        after: BrokerState,
        stream: StreamId,
        outcome: Result<(), ChannelErrorValue>,
    ) -> bool {
        if self.is_publishing(stream) {
            outcome == Err::<(), ChannelErrorValue>(ChannelErrorValue::Exists) && after == self
        } else {
            let entered = self.register(stream, after.handles.last());
            &&& outcome is Ok
            &&& after.handles.len() == self.handles.len() + 1
            &&& {
                ||| after == entered
                ||| self.announces_publish() && after == entered.emit(
                    ClientIntent::Publish { stream },
                )
            }
        }
    }

    /// How an unpublish request may end.
    ///
    /// The transmitter of a live stream is told to stop, and the stream is
    /// struck. If the transmitter is gone nothing changes.
    pub open spec fn unpublished(
        self,
        after: BrokerState,
        stream: StreamId,
        outcome: Result<(), ChannelErrorValue>,
    ) -> bool {
        match self.refusal(stream) {
            Some(reason) => outcome == Err::<(), ChannelErrorValue>(reason) && after == self,
            None => {
                ||| outcome is Ok && after == self.forward(stream, ControlEvent::UnPublish).unregister(
                    stream,
                )
                ||| outcome == Err::<(), ChannelErrorValue>(ChannelErrorValue::SendError) && after
                    == self
            },
        }
    }

    /// How a subscribe request may end.
    ///
    /// For a live stream a queue is made for the subscriber and its sending
    /// end goes to the stream's transmitter. Else the request fails with
    /// `NoAppOrStreamName`; where pulling is switched on, relay clients are
    /// first told that the stream is wanted, and the notice is recorded if a
    /// relay client was there to take it.
    pub open spec fn subscribed(
        self,
        after: BrokerState,
        stream: StreamId,
        key: u128,
        player: bool,
        outcome: Result<(), ChannelErrorValue>,
    ) -> bool {
        if self.is_publishing(stream) {
            ||| outcome is Ok && after.outlets.len() == self.outlets.len() + 1 && after
                == self.let_in(stream, key, player, after.last_queue(), after.outlets.last())
            ||| outcome == Err::<(), ChannelErrorValue>(ChannelErrorValue::SendError) && after
                == self
        } else {
            &&& outcome == Err::<(), ChannelErrorValue>(ChannelErrorValue::NoAppOrStreamName)
            &&& {
                ||| after == self
                ||| self.pull_enabled && after == self.emit(ClientIntent::Subscribe { stream })
            }
        }
    }

    /// How an unsubscribe request may end.
    pub open spec fn unsubscribed(
        self,
        after: BrokerState,
        stream: StreamId,
        key: u128,
        outcome: Result<(), ChannelErrorValue>,
    ) -> bool {
        match self.refusal(stream) {
            Some(reason) => outcome == Err::<(), ChannelErrorValue>(reason) && after == self,
            None => {
                ||| outcome is Ok && after == self.forward(stream, ControlEvent::UnSubscribe { key })
                ||| outcome == Err::<(), ChannelErrorValue>(ChannelErrorValue::SendError) && after
                    == self
            },
        }
    }

    /// How a publish request that came in through the request queue may
    /// end. A request that is turned down gets no answer. One that is
    /// carried out is answered with the handle that the publish handed out,
    /// and the answer is recorded exactly when the session that asked was
    /// still there to take it.
    pub open spec fn handled_publish(
        self,
        after: BrokerState,
        stream: StreamId,
        handled: Handled,
    ) -> bool {
        match handled {
            Handled::Failed(e) => self.published(after, stream, Err(e.value)),
            Handled::Unanswered => self.published(after, stream, Ok(())),
            Handled::Done => {
                &&& after.sent.len() > 0
                &&& after.handles.len() > 0
                &&& self.published(after.unrecord(), stream, Ok(()))
                &&& after.sent.last() == (Outgoing::PublishAnswer {
                    stream,
                    feed: after.handles.last().feed,
                })
            },
        }
    }

    /// How a subscribe request that came in through the request queue may
    /// end. A request that is turned down gets no answer. One that is
    /// carried out is answered with the receiving end of the subscriber's
    /// queue, and the answer is recorded exactly when the session that asked
    /// was still there to take it.
    pub open spec fn handled_subscribe(
        self,
        after: BrokerState,
        stream: StreamId,
        key: u128,
        player: bool,
        handled: Handled,
    ) -> bool {
        match handled {
            Handled::Failed(e) => self.subscribed(after, stream, key, player, Err(e.value)),
            Handled::Unanswered => self.subscribed(after, stream, key, player, Ok(())),
            Handled::Done => {
                &&& after.sent.len() > 0
                &&& after.outlets.len() > 0
                &&& self.subscribed(after.unrecord(), stream, key, player, Ok(()))
                &&& after.sent.last() == (Outgoing::SubscribeAnswer {
                    stream,
                    key,
                    outlet: after.outlets.last(),
                })
            },
        }
    }

    /// The statistics queries that went to the first `n` live streams.
    pub open spec fn queries(self, sender: AvStatisticSender, n: int) -> Seq<Outgoing> {
        Seq::new(
            n as nat,
            |i: int|
                Outgoing::Control { stream: self.streams[i], event: ControlEvent::Api { sender } },
        )
    }

    /// How a statistics query may end.
    ///
    /// The query goes to the transmitter of each live stream in turn, and
    /// then the number of live streams goes to the one who asked. The first
    /// queue that refuses ends the request.
    pub open spec fn queried(
        self,
        after: BrokerState,
        sender: AvStatisticSender,
        outcome: Result<(), ChannelErrorValue>,
    ) -> bool {
        let all = self.streams.len() as int;
        ||| outcome is Ok && after == (BrokerState {
            sent: self.sent + self.queries(sender, all) + seq![
                Outgoing::StreamCount { count: self.streams.len() },
            ],
            ..self
        })
        ||| outcome == Err::<(), ChannelErrorValue>(ChannelErrorValue::SendError) && exists|n: int|
            0 <= n <= all && after == (BrokerState {
                sent: self.sent + #[trigger] self.queries(sender, n),
                ..self
            })
    }
}

/// The outcome of a request without what it hands back.
pub open spec fn outcome_of<T>(r: Result<T, ChannelError>) -> Result<(), ChannelErrorValue> {
    match r {
        Ok(_) => Ok(()),
        Err(e) => Err(e.value),
    }
}

/// One live stream in the registry.
pub struct StreamEntry {
    app_name: String,
    stream_name: String,
    /// The queue to the stream's transmitter.
    producer: TransmitterEventProducer,
    /// The queue that was handed to the stream's publisher.
    feed: Ghost<ChannelDataProducer>,
}

impl StreamEntry {
    pub closed spec fn id(&self) -> StreamId {
        (self.app_name@, self.stream_name@)
    }

    pub closed spec fn handles(&self) -> StreamHandles {
        StreamHandles { control: self.producer, feed: self.feed@ }
    }
}

/// The handles of a run of entries, in the same order.
pub closed spec fn stream_handles(entries: Seq<StreamEntry>) -> Seq<StreamHandles> {
    Seq::new(entries.len(), |i: int| entries[i].handles())
}

/// The identities of a run of entries, in the same order.
pub closed spec fn stream_ids(entries: Seq<StreamEntry>) -> Seq<StreamId> {
    Seq::new(entries.len(), |i: int| entries[i].id())
}

/// The names that a run of strings spells.
pub open spec fn names(strings: Seq<String>) -> Set<Seq<char>> {
    Set::new(|name: Seq<char>| exists|i: int| 0 <= i < strings.len() && (#[trigger] strings[i])@ == name)
}

/// The transmitters of a run of tasks, in the same order.
pub open spec fn transmitters(tasks: Seq<StreamTask>) -> Seq<TransmitterState> {
    Seq::new(tasks.len(), |i: int| tasks[i].transmitter@)
}

pub struct ChannelsManager {
    /// The application names under which a stream has been published.
    apps: Vec<String>,
    /// The live streams, in the order of publication.
    streams: Vec<StreamEntry>,
    /// Requests come in here; the task that drives the broker takes this end.
    channel_event_consumer: Option<ChannelEventConsumer>,
    /// Sessions send their requests here.
    channel_event_producer: ChannelEventProducer,
    /// Notices to the relay clients go out here.
    client_event_producer: ClientEventProducer,
    /// How many groups of pictures each stream caches.
    rtmp_gop_num: usize,
    rtmp_push_enabled: bool,
    rtmp_pull_enabled: bool,
    hls_enabled: bool,
    /// Published streams that wait for a task to drive them.
    spawned: Vec<StreamTask>,
    /// What has been handed to queues so far.
    sent: Ghost<Seq<Outgoing>>,
    /// The receiving ends that subscribers were given so far.
    outlets: Ghost<Seq<ChannelDataConsumer>>,
}

impl View for ChannelsManager {
    type V = BrokerState;

    closed spec fn view(&self) -> BrokerState {
        BrokerState {
            apps: names(self.apps@),
            streams: stream_ids(self.streams@),
            handles: stream_handles(self.streams@),
            outlets: self.outlets@,
            gop_num: self.rtmp_gop_num as nat,
            push_enabled: self.rtmp_push_enabled,
            pull_enabled: self.rtmp_pull_enabled,
            hls_enabled: self.hls_enabled,
            sent: self.sent@,
            notices: noticed(self.client_event_producer),
            launching: transmitters(self.spawned@),
            holds_requests: self.channel_event_consumer is Some,
            requests: self.channel_event_producer,
        }
    }
}

impl Default for ChannelsManager {
    fn default() -> (manager: Self)
        ensures
            manager@ == BrokerState::fresh(manager@.requests),
    {
        Self::new()
    }
}

impl ChannelsManager {
    #[verifier::type_invariant]
    spec fn inv(&self) -> bool {
        &&& stream_ids(self.streams@).no_duplicates()
        &&& forall|i: int|
            0 <= i < self.streams@.len() ==> names(self.apps@).contains(
                (#[trigger] self.streams@[i]).app_name@,
            )
    }

    pub fn new() -> (manager: Self)
        ensures
            manager@ == BrokerState::fresh(manager@.requests),
            manager@.wf(),
    {
        let (event_producer, event_consumer) = tokio::sync::mpsc::unbounded_channel();
        let (client_producer, _) = notice_queue(CLIENT_EVENT_CAPACITY);
        let manager = Self {
            apps: Vec::new(),
            streams: Vec::new(),
            channel_event_consumer: Some(event_consumer),
            channel_event_producer: event_producer,
            client_event_producer: client_producer,
            rtmp_gop_num: 1,
            rtmp_push_enabled: false,
            rtmp_pull_enabled: false,
            hls_enabled: false,
            spawned: Vec::new(),
            sent: Ghost(Seq::empty()),
            outlets: Ghost(Seq::empty()),
        };
        assert(manager@.apps =~= Set::<Seq<char>>::empty());
        assert(manager@.streams =~= Seq::<StreamId>::empty());
        assert(manager@.handles =~= Seq::<StreamHandles>::empty());
        assert(manager@.launching =~= Seq::<TransmitterState>::empty());
        manager
    }

    proof fn lemma_inv_wf(&self)
        requires
            self.inv(),
        ensures
            self@.wf(),
    {
        assert forall|i: int| 0 <= i < self@.streams.len() implies self@.apps.contains(
            (#[trigger] self@.streams[i]).0,
        ) by {
            assert(names(self.apps@).contains(self.streams@[i].app_name@));
        }
    }

    pub fn set_rtmp_push_enabled(&mut self, enabled: bool)
        ensures
            old(self)@.wf(),
            final(self)@.wf(),
            final(self)@ == (BrokerState { push_enabled: enabled, ..old(self)@ }),
    {
        proof {
            use_type_invariant(&*self);
            self.lemma_inv_wf();
        }
        self.rtmp_push_enabled = enabled;
    }

    pub fn set_rtmp_pull_enabled(&mut self, enabled: bool)
        ensures
            old(self)@.wf(),
            final(self)@.wf(),
            final(self)@ == (BrokerState { pull_enabled: enabled, ..old(self)@ }),
    {
        proof {
            use_type_invariant(&*self);
            self.lemma_inv_wf();
        }
        self.rtmp_pull_enabled = enabled;
    }

    pub fn set_rtmp_gop_num(&mut self, gop_num: usize)
        ensures
            old(self)@.wf(),
            final(self)@.wf(),
            final(self)@ == (BrokerState { gop_num: gop_num as nat, ..old(self)@ }),
    {
        proof {
            use_type_invariant(&*self);
            self.lemma_inv_wf();
        }
        self.rtmp_gop_num = gop_num;
    }

    pub fn set_hls_enabled(&mut self, enabled: bool)
        ensures
            old(self)@.wf(),
            final(self)@.wf(),
            final(self)@ == (BrokerState { hls_enabled: enabled, ..old(self)@ }),
    {
        proof {
            use_type_invariant(&*self);
            self.lemma_inv_wf();
        }
        self.hls_enabled = enabled;
    }

    /// A handle on the queue that carries requests to the broker: the
    /// broker's own handle, once more.
    pub fn get_channel_event_producer(&mut self) -> (producer: ChannelEventProducer)
        ensures
            old(self)@.wf(),
            final(self)@.wf(),
            producer == old(self)@.requests,
            final(self)@ == old(self)@,
    {
        proof {
            use_type_invariant(&*self);
            self.lemma_inv_wf();
        }
        self.channel_event_producer.clone()
    }

    /// A new receiver of the notices to relay clients. It sees the notices
    /// that go out from now on.
    pub fn get_client_event_consumer(&mut self) -> (consumer: ClientEventConsumer)
        ensures
            old(self)@.wf(),
            final(self)@.wf(),
            final(self)@ == old(self)@,
    {
        proof {
            use_type_invariant(&*self);
            self.lemma_inv_wf();
        }
        self.client_event_producer.subscribe()
    }

    /// Hands out the receiving end of the request queue, once.
    pub fn take_channel_event_consumer(&mut self) -> (consumer: Option<ChannelEventConsumer>)
        ensures
            old(self)@.wf(),
            final(self)@.wf(),
            consumer is Some <==> old(self)@.holds_requests,
            final(self)@ == (BrokerState { holds_requests: false, ..old(self)@ }),
    {
        proof {
            use_type_invariant(&*self);
            self.lemma_inv_wf();
        }
        let mut consumer: Option<ChannelEventConsumer> = None;
        std::mem::swap(&mut consumer, &mut self.channel_event_consumer);
        consumer
    }

    /// Hands out the published streams that no task drives yet.
    pub fn take_spawned(&mut self) -> (tasks: Vec<StreamTask>)
        ensures
            old(self)@.wf(),
            final(self)@.wf(),
            transmitters(tasks@) == old(self)@.launching,
            final(self)@ == (BrokerState { launching: Seq::empty(), ..old(self)@ }),
    {
        proof {
            use_type_invariant(&*self);
            self.lemma_inv_wf();
        }
        let mut tasks: Vec<StreamTask> = Vec::new();
        std::mem::swap(&mut tasks, &mut self.spawned);
        assert(self@.launching =~= Seq::<TransmitterState>::empty());
        tasks
    }

    /// Whether a stream has been published under the application name.
    pub fn knows_app(&self, app_name: &String) -> (known: bool)
        ensures
            self@.wf(),
            known == self@.knows_app(app_name@),
    {
        proof {
            use_type_invariant(&*self);
            self.lemma_inv_wf();
        }
        let mut i: usize = 0;
        while i < self.apps.len()
            invariant
                self@.wf(),
                i <= self.apps.len(),
                forall|j: int| 0 <= j < i ==> (#[trigger] self.apps@[j])@ != app_name@,
            decreases self.apps.len() - i,
        {
            if self.apps[i] == *app_name {
                return true;
            }
            i = i + 1;
        }
        false
    }

    /// The place of a stream in the registry, if it is being published.
    fn find(&self, app_name: &String, stream_name: &String) -> (place: Option<usize>)
        ensures
            match place {
                Some(i) => i < self.streams@.len() && stream_ids(self.streams@)[i as int] == (
                    app_name@,
                    stream_name@,
                ),
                None => !self@.is_publishing((app_name@, stream_name@)),
            },
    {
        let mut i: usize = 0;
        while i < self.streams.len()
            invariant
                i <= self.streams.len(),
                forall|j: int|
                    0 <= j < i ==> (#[trigger] stream_ids(self.streams@)[j]) != (
                        app_name@,
                        stream_name@,
                    ),
            decreases self.streams.len() - i,
        {
            if self.streams[i].app_name == *app_name && self.streams[i].stream_name == *stream_name {
                return Some(i);
            }
            i = i + 1;
        }
        None
    }

    /// Whether the stream is being published.
    pub fn is_publishing(&self, app_name: &String, stream_name: &String) -> (live: bool)
        ensures
            self@.wf(),
            live == self@.is_publishing((app_name@, stream_name@)),
    {
        proof {
            use_type_invariant(&*self);
            self.lemma_inv_wf();
        }
        self.find(app_name, stream_name).is_some()
    }

    /// The number of streams that are being published.
    pub fn stream_count(&self) -> (n: usize)
        ensures
            self@.wf(),
            n == self@.streams.len(),
    {
        proof {
            use_type_invariant(&*self);
            self.lemma_inv_wf();
        }
        self.streams.len()
    }
    /// Publishes a stream: enters it in the registry and sets up its
    /// transmitter, which `take_spawned` hands to the task that will drive
    /// it. Returns the queue on which the publisher sends its frames. The
    /// one reason to fail is that the stream is being published already.
    pub fn publish(&mut self, app_name: &String, stream_name: &String) -> (r: Result<
        ChannelDataProducer,
        ChannelError,
    >)
        ensures
            old(self)@.wf(),
            old(self)@.published(final(self)@, (app_name@, stream_name@), outcome_of(r)),
            r matches Ok(handle) ==> handle == final(self)@.handles.last().feed,
            final(self)@.is_publishing((app_name@, stream_name@)),
            final(self)@.wf(),
    {
        proof {
            use_type_invariant(&*self);
            self.lemma_inv_wf();
        }
        let ghost before = self@;
        let ghost id = (app_name@, stream_name@);
        if self.find(app_name, stream_name).is_some() {
            return Err(ChannelError { value: ChannelErrorValue::Exists });
        }
        let known = self.knows_app(app_name);
        let (event_publisher, event_consumer) = tokio::sync::mpsc::unbounded_channel();
        let (data_publisher, data_consumer) = tokio::sync::mpsc::unbounded_channel();
        let transmitter = Transmitter::new(
            app_name.clone(),
            stream_name.clone(),
            self.rtmp_gop_num,
        );

        let mut streams: Vec<StreamEntry> = Vec::new();
        std::mem::swap(&mut streams, &mut self.streams);
        let mut apps: Vec<String> = Vec::new();
        std::mem::swap(&mut apps, &mut self.apps);
        let ghost old_apps = apps@;
        if !known {
            apps.push(app_name.clone());
        }
        assert(names(apps@) =~= before.apps.insert(app_name@)) by {
            assert forall|name: Seq<char>| names(apps@).contains(name) implies before.apps.insert(
                app_name@,
            ).contains(name) by {
                let i = choose|i: int| 0 <= i < apps@.len() && (#[trigger] apps@[i])@ == name;
                if i < old_apps.len() {
                    assert(old_apps[i]@ == name);
                }
            }
            assert forall|name: Seq<char>| before.apps.insert(app_name@).contains(
                name,
            ) implies names(apps@).contains(name) by {
                if before.apps.contains(name) {
                    let i = choose|i: int| 0 <= i < old_apps.len() && (#[trigger] old_apps[i])@ == name;
                    assert(apps@[i]@ == name);
                } else {
                    assert(!known);
                    assert(apps@[old_apps.len() as int]@ == name);
                }
            }
        }
        self.apps = apps;
        let ghost old_streams = streams@;
        streams.push(
            StreamEntry {
                app_name: app_name.clone(),
                stream_name: stream_name.clone(),
                producer: event_publisher,
                feed: Ghost(data_publisher),
            },
        );
        let ghost handles = StreamHandles { control: event_publisher, feed: data_publisher };
        assert(stream_ids(streams@) =~= before.streams.push(id));
        assert(stream_handles(streams@) =~= before.handles.push(handles));
        assert(stream_ids(streams@).no_duplicates()) by {
            assert forall|a: int, b: int|
                0 <= a < streams@.len() && 0 <= b < streams@.len() && a != b implies stream_ids(
                streams@,
            )[a] != stream_ids(streams@)[b] by {
                if a == old_streams.len() {
                    assert(before.streams.contains(before.streams[b]));
                } else if b == old_streams.len() {
                    assert(before.streams.contains(before.streams[a]));
                }
            }
        }
        assert forall|i: int| 0 <= i < streams@.len() implies names(self.apps@).contains(
            (#[trigger] streams@[i]).app_name@,
        ) by {
            if i < old_streams.len() {
                assert(streams@[i] == old_streams[i]);
                assert(before.apps.contains(old_streams[i].app_name@));
            }
        }
        self.streams = streams;
        let mut spawned: Vec<StreamTask> = Vec::new();
        std::mem::swap(&mut spawned, &mut self.spawned);
        spawned.push(StreamTask { transmitter, data_consumer, event_consumer });
        self.spawned = spawned;
        assert(self@.launching =~= before.launching.push(
            TransmitterState::fresh(app_name@, stream_name@, before.gop_num),
        ));
        assert(self@ == before.register(id, handles));
        proof {
            lemma_register(before, id, handles);
        }

        if self.rtmp_push_enabled || self.hls_enabled {
            // A notice asks for no listener: the publish stands whether or
            // not a relay client was there to take it.
            notice(&mut self.client_event_producer, ClientEvent::publish(app_name, stream_name));
        }
        Ok(data_publisher)
    }

    /// Ends the publication of a stream: tells its transmitter to stop and
    /// strikes it from the registry.
    pub fn unpublish(&mut self, app_name: &String, stream_name: &String) -> (r: Result<
        (),
        ChannelError,
    >)
        ensures
            old(self)@.wf(),
            old(self)@.unpublished(final(self)@, (app_name@, stream_name@), outcome_of(r)),
            r is Ok ==> !final(self)@.is_publishing((app_name@, stream_name@)),
            final(self)@.wf(),
    {
        proof {
            use_type_invariant(&*self);
            self.lemma_inv_wf();
        }
        let ghost before = self@;
        let ghost id = (app_name@, stream_name@);
        match self.find(app_name, stream_name) {
            Some(i) => {
                proof {
                    assert(names(self.apps@).contains(self.streams@[i as int].app_name@));
                    assert(before.streams[i as int] == id);
                    assert(before.streams.contains(id));
                    assert(before.refusal(id) is None);
                    lemma_unregister(before.forward(id, ControlEvent::UnPublish), id);
                }
                let sent = self.streams[i].producer.send(TransmitterEvent::UnPublish {  }).is_ok();
                self.finish_unpublish(i, sent)
            },
            None => {
                if self.knows_app(app_name) {
                    Err(ChannelError { value: ChannelErrorValue::NoStreamName })
                } else {
                    Err(ChannelError { value: ChannelErrorValue::NoAppName })
                }
            },
        }
    }

    /// Ends an unpublish request once the stop event has been handed to the
    /// transmitter of the stream at `place`. If the transmitter's queue took
    /// the event, the event is recorded and the stream is struck. If it
    /// refused, the transmitter is gone already, and nothing changes.
    fn finish_unpublish(&mut self, place: usize, sent: bool) -> (r: Result<(), ChannelError>)
        requires
            place < old(self)@.streams.len(),
        ensures
            sent ==> r is Ok && final(self)@ == old(self)@.forward(
                old(self)@.streams[place as int],
                ControlEvent::UnPublish,
            ).unregister(old(self)@.streams[place as int]),
            !sent ==> (r matches Err(e) && e.value is SendError) && final(self)@ == old(self)@,
            final(self)@.wf(),
    {
        proof {
            use_type_invariant(&*self);
            self.lemma_inv_wf();
        }
        if !sent {
            return Err(ChannelError { value: ChannelErrorValue::SendError });
        }
        let ghost before = self@;
        let ghost id = before.streams[place as int];
        proof {
            self.sent@ = self.sent@.push(
                Outgoing::Control { stream: id, event: ControlEvent::UnPublish },
            );
        }
        let mut streams: Vec<StreamEntry> = Vec::new();
        std::mem::swap(&mut streams, &mut self.streams);
        let ghost old_streams = streams@;
        streams.remove(place);
        proof {
            let found = before.streams.index_of(id);
            assert(0 <= found < before.streams.len() && before.streams[found] == id);
            assert(found == place as int);
            assert(stream_ids(streams@) =~= before.streams.remove(place as int));
            assert(stream_handles(streams@) =~= before.handles.remove(place as int));
            assert forall|a: int, b: int|
                0 <= a < streams@.len() && 0 <= b < streams@.len() && a != b implies stream_ids(
                streams@,
            )[a] != stream_ids(streams@)[b] by {
                let a_old = if a < place { a } else { a + 1 };
                let b_old = if b < place { b } else { b + 1 };
                assert(stream_ids(streams@)[a] == before.streams[a_old]);
                assert(stream_ids(streams@)[b] == before.streams[b_old]);
            }
            assert forall|k: int| 0 <= k < streams@.len() implies names(self.apps@).contains(
                (#[trigger] streams@[k]).app_name@,
            ) by {
                let k_old = if k < place { k } else { k + 1 };
                assert(streams@[k] == old_streams[k_old]);
            }
        }
        self.streams = streams;
        proof {
            assert(before.streams.contains(id));
            lemma_unregister(before.forward(id, ControlEvent::UnPublish), id);
        }
        Ok(())
    }

    /// Subscribes a session to a stream. Returns the queue on which the
    /// subscriber gets its frames. Where nobody publishes the stream the
    /// request fails with `NoAppOrStreamName`, whether or not a relay client
    /// was there to be told that the stream is wanted.
    pub fn subscribe(
        &mut self,
        app_name: &String,
        stream_name: &String,
        sub_info: SubscriberInfo,
    ) -> (r: Result<ChannelDataConsumer, ChannelError>)
        ensures
            old(self)@.wf(),
            final(self)@.wf(),
            old(self)@.subscribed(
                final(self)@,
                (app_name@, stream_name@),
                sub_info.key(),
                sub_info.sub_type.is_player(),
                outcome_of(r),
            ),
            r matches Ok(handle) ==> handle == final(self)@.outlets.last(),
    {
        proof {
            use_type_invariant(&*self);
            self.lemma_inv_wf();
        }
        let ghost id = (app_name@, stream_name@);
        if let Some(i) = self.find(app_name, stream_name) {
            assert(self@.streams[i as int] == id);
            let (channel_data_producer, channel_data_consumer) =
                tokio::sync::mpsc::unbounded_channel();
            let event = TransmitterEvent::Subscribe {
                producer: channel_data_producer,
                info: sub_info,
            };
            let ghost forwarded = event@;
            if self.streams[i].producer.send(event).is_err() {
                return Err(ChannelError { value: ChannelErrorValue::SendError });
            }
            proof {
                self.sent@ = self.sent@.push(Outgoing::Control { stream: id, event: forwarded });
                self.outlets@ = self.outlets@.push(channel_data_consumer);
            }
            return Ok(channel_data_consumer);
        }
        if self.rtmp_pull_enabled {
            // A notice asks for no listener: the request ends the same
            // whether or not a relay client was there to take it.
            notice(
                &mut self.client_event_producer,
                ClientEvent::subscribe(app_name, stream_name),
            );
        }
        Err(ChannelError { value: ChannelErrorValue::NoAppOrStreamName })
    }

    /// Takes a session off a stream.
    pub fn unsubscribe(
        &mut self,
        app_name: &String,
        stream_name: &String,
        sub_info: SubscriberInfo,
    ) -> (r: Result<(), ChannelError>)
        ensures
            old(self)@.wf(),
            final(self)@.wf(),
            old(self)@.unsubscribed(
                final(self)@,
                (app_name@, stream_name@),
                sub_info.key(),
                outcome_of(r),
            ),
    {
        proof {
            use_type_invariant(&*self);
            self.lemma_inv_wf();
        }
        let ghost before = self@;
        let ghost id = (app_name@, stream_name@);
        match self.find(app_name, stream_name) {
            Some(i) => {
                proof {
                    assert(names(self.apps@).contains(self.streams@[i as int].app_name@));
                    assert(before.streams[i as int] == id);
                    assert(before.refusal(id) is None);
                }
                let event = TransmitterEvent::UnSubscribe { info: sub_info };
                let ghost forwarded = event@;
                if self.streams[i].producer.send(event).is_err() {
                    return Err(ChannelError { value: ChannelErrorValue::SendError });
                }
                proof {
                    self.sent@ = self.sent@.push(
                        Outgoing::Control { stream: id, event: forwarded },
                    );
                }
                Ok(())
            },
            None => {
                if self.knows_app(app_name) {
                    Err(ChannelError { value: ChannelErrorValue::NoStreamName })
                } else {
                    Err(ChannelError { value: ChannelErrorValue::NoAppName })
                }
            },
        }
    }

    /// Answers a statistics query: asks the transmitter of every live stream
    /// to report to `data_sender`, and tells `size_sender` how many were
    /// asked.
    pub fn api(&mut self, data_sender: AvStatisticSender, size_sender: StreamStatisticSizeSender) -> (r:
        Result<(), ChannelError>)
        ensures
            old(self)@.wf(),
            final(self)@.wf(),
            old(self)@.queried(final(self)@, data_sender, outcome_of(r)),
    {
        proof {
            use_type_invariant(&*self);
            self.lemma_inv_wf();
        }
        let ghost before = self@;
        let mut stream_count: usize = 0;
        assert(before.sent + before.queries(data_sender, 0) =~= before.sent);
        while stream_count < self.streams.len()
            invariant
                self.inv(),
                before == old(self)@,
                stream_count <= self.streams.len(),
                self.streams@.len() == before.streams.len(),
                self@ == (BrokerState {
                    sent: before.sent + before.queries(data_sender, stream_count as int),
                    ..before
                }),
            decreases self.streams.len() - stream_count,
        {
            let event = TransmitterEvent::Api { sender: data_sender.clone() };
            let ghost forwarded = event@;
            if self.streams[stream_count].producer.send(event).is_err() {
                return Err(ChannelError { value: ChannelErrorValue::SendError });
            }
            proof {
                self.sent@ = self.sent@.push(
                    Outgoing::Control {
                        stream: before.streams[stream_count as int],
                        event: forwarded,
                    },
                );
                assert(self.sent@ =~= before.sent + before.queries(data_sender, stream_count + 1));
            }
            stream_count = stream_count + 1;
        }
        if size_sender.send(stream_count).is_err() {
            return Err(ChannelError { value: ChannelErrorValue::SendError });
        }
        proof {
            self.sent@ = self.sent@.push(Outgoing::StreamCount { count: stream_count as nat });
            assert(self.sent@ =~= before.sent + before.queries(data_sender, before.streams.len() as int) + seq![
                Outgoing::StreamCount { count: before.streams.len() },
            ]);
        }
        Ok(())
    }

    /// Carries out one request of a session and answers it.
    pub fn handle_event(&mut self, message: ChannelEvent) -> (handled: Handled)
        ensures
            old(self)@.wf(),
            final(self)@.wf(),
            match message {
                ChannelEvent::Publish {
                    app_name,
                    stream_name,
                    responder,
                } => old(self)@.handled_publish(final(self)@, (app_name@, stream_name@), handled),
                ChannelEvent::UnPublish { app_name, stream_name } => {
                    &&& old(self)@.unpublished(
                        final(self)@,
                        (app_name@, stream_name@),
                        handled.outcome(),
                    )
                    &&& !(handled is Unanswered)
                },
                ChannelEvent::Subscribe {
                    app_name,
                    stream_name,
                    info,
                    responder,
                } => old(self)@.handled_subscribe(
                    final(self)@,
                    (app_name@, stream_name@),
                    info.key(),
                    info.sub_type.is_player(),
                    handled,
                ),
                ChannelEvent::UnSubscribe { app_name, stream_name, info } => {
                    &&& old(self)@.unsubscribed(
                        final(self)@,
                        (app_name@, stream_name@),
                        info.key(),
                        handled.outcome(),
                    )
                    &&& !(handled is Unanswered)
                },
                ChannelEvent::Api { data_sender, size_sender } => {
                    &&& old(self)@.queried(final(self)@, data_sender, handled.outcome())
                    &&& !(handled is Unanswered)
                },
            },
    {
        proof {
            use_type_invariant(&*self);
            self.lemma_inv_wf();
        }
        match message {
            ChannelEvent::Publish { app_name, stream_name, responder } => {
                match self.publish(&app_name, &stream_name) {
                    Ok(producer) => {
                        let ghost carried_out = self@;
                        let ghost answer = producer;
                        let taken = responder.send(producer).is_ok();
                        let handled = self.answered_publish(
                            &app_name,
                            &stream_name,
                            Ghost(answer),
                            taken,
                        );
                        proof {
                            if taken {
                                assert(self@.sent.drop_last() =~= carried_out.sent);
                                assert(self@.unrecord() == carried_out);
                            }
                        }
                        handled
                    },
                    Err(err) => Handled::Failed(err),
                }
            },
            ChannelEvent::UnPublish { app_name, stream_name } => {
                match self.unpublish(&app_name, &stream_name) {
                    Ok(()) => Handled::Done,
                    Err(err) => Handled::Failed(err),
                }
            },
            ChannelEvent::Subscribe { app_name, stream_name, info, responder } => {
                match self.subscribe(&app_name, &stream_name, info) {
                    Ok(consumer) => {
                        let ghost carried_out = self@;
                        let ghost answer = consumer;
                        let taken = responder.send(consumer).is_ok();
                        let handled = self.answered_subscribe(
                            &app_name,
                            &stream_name,
                            info,
                            Ghost(answer),
                            taken,
                        );
                        proof {
                            if taken {
                                assert(self@.sent.drop_last() =~= carried_out.sent);
                                assert(self@.unrecord() == carried_out);
                            }
                        }
                        handled
                    },
                    Err(err) => Handled::Failed(err),
                }
            },
            ChannelEvent::UnSubscribe { app_name, stream_name, info } => {
                match self.unsubscribe(&app_name, &stream_name, info) {
                    Ok(()) => Handled::Done,
                    Err(err) => Handled::Failed(err),
                }
            },
            ChannelEvent::Api { data_sender, size_sender } => {
                match self.api(data_sender, size_sender) {
                    Ok(()) => Handled::Done,
                    Err(err) => Handled::Failed(err),
                }
            },
        }
    }

    /// Ends a publish request that was carried out, once its answer has
    /// been handed to the session that asked: an answer that was taken is
    /// recorded, with the handle that was handed over.
    fn answered_publish(
        &mut self,
        app_name: &String,
        stream_name: &String,
        answer: Ghost<ChannelDataProducer>,
        taken: bool,
    ) -> (handled: Handled)
        ensures
            taken ==> handled is Done && final(self)@ == old(self)@.record(
                Outgoing::PublishAnswer { stream: (app_name@, stream_name@), feed: answer@ },
            ),
            !taken ==> handled is Unanswered && final(self)@ == old(self)@,
    {
        proof {
            use_type_invariant(&*self);
        }
        if !taken {
            return Handled::Unanswered;
        }
        proof {
            self.sent@ = self.sent@.push(
                Outgoing::PublishAnswer { stream: (app_name@, stream_name@), feed: answer@ },
            );
        }
        Handled::Done
    }

    /// Ends a subscribe request that was carried out, once its answer has
    /// been handed to the session that asked: an answer that was taken is
    /// recorded, with the receiving end that was handed over.
    fn answered_subscribe(
        &mut self,
        app_name: &String,
        stream_name: &String,
        info: SubscriberInfo,
        answer: Ghost<ChannelDataConsumer>,
        taken: bool,
    ) -> (handled: Handled)
        ensures
            taken ==> handled is Done && final(self)@ == old(self)@.record(
                Outgoing::SubscribeAnswer {
                    stream: (app_name@, stream_name@),
                    key: info.key(),
                    outlet: answer@,
                },
            ),
            !taken ==> handled is Unanswered && final(self)@ == old(self)@,
    {
        proof {
            use_type_invariant(&*self);
        }
        if !taken {
            return Handled::Unanswered;
        }
        proof {
            self.sent@ = self.sent@.push(
                Outgoing::SubscribeAnswer {
                    stream: (app_name@, stream_name@),
                    key: info.key(),
                    outlet: answer@,
                },
            );
        }
        Handled::Done
    }
}

/// How a request to the broker ended.
pub enum Handled {
    /// The request was carried out and, where it has an answer, answered.
    Done,
    /// The request was turned down or could not be carried out.
    Failed(ChannelError),
    /// The request was carried out, but the session that asked is gone.
    Unanswered,
}

impl Handled {
    pub open spec fn outcome(self) -> Result<(), ChannelErrorValue> {
        match self {
            Handled::Done => Ok(()),
            Handled::Failed(e) => Err(e.value),
            Handled::Unanswered => Ok(()),
        }
    }
}

/// A request to the broker as a mathematical value.
pub ghost enum Request {
    Publish { stream: StreamId },
    UnPublish { stream: StreamId },
    Subscribe { stream: StreamId, key: u128, player: bool },
    UnSubscribe { stream: StreamId, key: u128 },
    Api { sender: AvStatisticSender },
    /// Anything that leaves the registry as it is: a switch is set, a
    /// handle is taken.
    Other,
}

/// One request in the life of a broker: what was asked, how it ended, and
/// the broker after it.
pub ghost struct Exchange {
    pub request: Request,
    pub outcome: Result<(), ChannelErrorValue>,
    pub after: BrokerState,
}

impl BrokerState {
    /// Whether `exchange` is a way in which its request may end when the
    /// broker is in this state.
    pub open spec fn allows(self, exchange: Exchange) -> bool {
        match exchange.request {
            Request::Publish { stream } => self.published(exchange.after, stream, exchange.outcome),
            Request::UnPublish { stream } => self.unpublished(
                exchange.after,
                stream,
                exchange.outcome,
            ),
            Request::Subscribe { stream, key, player } => self.subscribed(
                exchange.after,
                stream,
                key,
                player,
                exchange.outcome,
            ),
            Request::UnSubscribe { stream, key } => self.unsubscribed(
                exchange.after,
                stream,
                key,
                exchange.outcome,
            ),
            Request::Api { sender } => self.queried(exchange.after, sender, exchange.outcome),
            Request::Other => exchange.after.apps == self.apps && exchange.after.handles
                == self.handles && exchange.after.streams
                == self.streams,
        }
    }

    /// The broker after a run of exchanges.
    pub open spec fn after_all(self, run: Seq<Exchange>) -> BrokerState {
        if run.len() == 0 {
            self
        } else {
            run.last().after
        }
    }

    /// Whether `run` is a possible life of a broker that starts in this
    /// state: each exchange is allowed where the one before it ended.
    pub open spec fn allows_all(self, run: Seq<Exchange>) -> bool
        decreases run.len(),
    {
        run.len() > 0 ==> self.allows_all(run.drop_last()) && self.after_all(run.drop_last()).allows(
            run.last(),
        )
    }
}

/// Whatever is asked of a broker, its registry stays well formed: no stream
/// is entered twice, and each under a known application name.
pub proof fn law_registry_stays_well_formed(before: BrokerState, exchange: Exchange)
    requires
        before.wf(),
        before.allows(exchange),
    ensures
        exchange.after.wf(),
{
    match exchange.request {
        Request::Publish { stream } => {
            if !before.is_publishing(stream) {
                lemma_register(before, stream, exchange.after.handles.last());
            }
        },
        Request::UnPublish { stream } => {
            if before.refusal(stream) is None && exchange.outcome is Ok {
                lemma_unregister(before.forward(stream, ControlEvent::UnPublish), stream);
            }
        },
        Request::Subscribe { stream, key, player } => {},
        Request::UnSubscribe { stream, key } => {},
        Request::Api { sender } => {},
        Request::Other => {},
    }
}

/// Once a stream is published, every further request to publish it is
/// turned down as long as nobody asks to unpublish it: the request ends with
/// `Exists` and changes nothing.
pub proof fn law_second_publish_is_refused(
    before: BrokerState,
    first: Exchange,
    between: Seq<Exchange>,
    second: Exchange,
    stream: StreamId,
)
    requires
        first.request == (Request::Publish { stream }),
        before.allows(first),
        first.after.allows_all(between),
        forall|i: int|
            0 <= i < between.len() ==> (#[trigger] between[i]).request != (Request::UnPublish {
                stream,
            }),
        second.request == (Request::Publish { stream }),
        first.after.after_all(between).allows(second),
    ensures
        second.outcome == Err::<(), ChannelErrorValue>(ChannelErrorValue::Exists),
        second.after == first.after.after_all(between),
{
    assert(first.after.is_publishing(stream)) by {
        if !before.is_publishing(stream) {
            assert(before.streams.push(stream)[before.streams.len() as int] == stream);
        }
    }
    lemma_stays_published(first.after, between, stream);
}

/// Once a stream has been unpublished, a second request to unpublish it is
/// turned down with `NoStreamName` and changes nothing.
pub proof fn law_second_unpublish_is_refused(
    before: BrokerState,
    first: Exchange,
    second: Exchange,
    stream: StreamId,
)
    requires
        before.wf(),
        first.request == (Request::UnPublish { stream }),
        first.outcome is Ok,
        before.allows(first),
        second.request == (Request::UnPublish { stream }),
        first.after.allows(second),
    ensures
        second.outcome == Err::<(), ChannelErrorValue>(ChannelErrorValue::NoStreamName),
        second.after == first.after,
{
    lemma_unregister(before.forward(stream, ControlEvent::UnPublish), stream);
}

/// A subscribe request for a stream that nobody publishes fails with
/// `NoAppOrStreamName` and leaves the registry alone. With pulling switched
/// off it tells the relay clients nothing. With pulling switched on it tells
/// them that the stream is wanted, and the notice is on record if a relay
/// client was there to take it.
pub proof fn law_subscribe_without_publisher(
    before: BrokerState,
    after: BrokerState,
    stream: StreamId,
    key: u128,
    player: bool,
    outcome: Result<(), ChannelErrorValue>,
)
    requires
        !before.is_publishing(stream),
        before.subscribed(after, stream, key, player, outcome),
    ensures
        outcome == Err::<(), ChannelErrorValue>(ChannelErrorValue::NoAppOrStreamName),
        after.streams == before.streams,
        after.handles == before.handles,
        after.apps == before.apps,
        after.sent == before.sent,
        !before.pull_enabled ==> after.notices == before.notices,
        before.pull_enabled ==> after.notices == before.notices || after.notices
            == before.notices.push(ClientIntent::Subscribe { stream }),
{
}

/// What the last request of a run did to the registration of a stream:
/// entered it, struck it, or nothing where no publish and no unpublish of the
/// stream succeeded.
pub open spec fn last_change(run: Seq<Exchange>, stream: StreamId) -> Option<bool>
    decreases run.len(),
{
    if run.len() == 0 {
        None
    } else if run.last().outcome is Ok && run.last().request == (Request::Publish { stream }) {
        Some(true)
    } else if run.last().outcome is Ok && run.last().request == (Request::UnPublish { stream }) {
        Some(false)
    } else {
        last_change(run.drop_last(), stream)
    }
}

/// A stream is registered exactly when the last publish or unpublish of it
/// that succeeded was a publish; no other request changes whether it is.
pub proof fn law_registered_by_last_success(start: BrokerState, run: Seq<Exchange>, stream: StreamId)
    requires
        start.wf(),
        start.allows_all(run),
    ensures
        start.after_all(run).wf(),
        start.after_all(run).is_publishing(stream) == (match last_change(run, stream) {
            Some(entered) => entered,
            None => start.is_publishing(stream),
        }),
    decreases run.len(),
{
    if run.len() > 0 {
        law_registered_by_last_success(start, run.drop_last(), stream);
        let before = start.after_all(run.drop_last());
        let last = run.last();
        let after = last.after;
        law_registry_stays_well_formed(before, last);
        match last.request {
            Request::Publish { stream: other } => {
                if !before.is_publishing(other) {
                    lemma_register(before, other, after.handles.last());
                    lemma_push_contains(before.streams, other, stream);
                }
            },
            Request::UnPublish { stream: other } => {
                if before.refusal(other) is None && last.outcome is Ok {
                    let told = before.forward(other, ControlEvent::UnPublish);
                    lemma_unregister(told, other);
                    if other != stream {
                        lemma_remove_contains(told.streams, other, stream);
                    }
                }
            },
            Request::Subscribe { stream: other, key, player } => {},
            Request::UnSubscribe { stream: other, key } => {},
            Request::Api { sender } => {},
            Request::Other => {},
        }
    }
}

/// A run with one value more holds that value and what it held.
proof fn lemma_push_contains(run: Seq<StreamId>, pushed: StreamId, asked: StreamId)
    ensures
        run.push(pushed).contains(asked) <==> run.contains(asked) || asked == pushed,
{
    if run.push(pushed).contains(asked) {
        let k = choose|k: int| 0 <= k < run.push(pushed).len() && run.push(pushed)[k] == asked;
        if k < run.len() {
            assert(run[k] == asked);
        }
    }
    if run.contains(asked) {
        let k = choose|k: int| 0 <= k < run.len() && run[k] == asked;
        assert(run.push(pushed)[k] == asked);
    }
    if asked == pushed {
        assert(run.push(pushed)[run.len() as int] == asked);
    }
}

/// Striking one value from a run neither adds nor loses another value.
proof fn lemma_remove_contains(run: Seq<StreamId>, struck: StreamId, asked: StreamId)
    requires
        run.contains(struck),
        struck != asked,
    ensures
        run.remove(run.index_of(struck)).contains(asked) <==> run.contains(asked),
{
    let place = run.index_of(struck);
    assert(0 <= place < run.len() && run[place] == struck);
    let rest = run.remove(place);
    if rest.contains(asked) {
        let k = choose|k: int| 0 <= k < rest.len() && rest[k] == asked;
        let k_old = if k < place { k } else { k + 1 };
        assert(run[k_old] == asked);
    }
    if run.contains(asked) {
        lemma_remove_keeps_others(run, struck, asked);
    }
}

proof fn lemma_register(before: BrokerState, stream: StreamId, handles: StreamHandles)
    requires
        before.wf(),
        !before.is_publishing(stream),
    ensures
        before.register(stream, handles).wf(),
        before.register(stream, handles).is_publishing(stream),
{
    let after = before.register(stream, handles);
    assert(after.streams[before.streams.len() as int] == stream);
    assert forall|a: int, b: int|
        0 <= a < after.streams.len() && 0 <= b < after.streams.len() && a != b implies after.streams[a]
        != after.streams[b] by {
        if a == before.streams.len() {
            assert(before.streams.contains(before.streams[b]));
        } else if b == before.streams.len() {
            assert(before.streams.contains(before.streams[a]));
        }
    }
    assert forall|i: int| 0 <= i < after.streams.len() implies after.apps.contains(
        (#[trigger] after.streams[i]).0,
    ) by {
        if i < before.streams.len() {
            assert(before.apps.contains(before.streams[i].0));
        }
    }
}

proof fn lemma_unregister(before: BrokerState, stream: StreamId)
    requires
        before.wf(),
        before.is_publishing(stream),
    ensures
        before.unregister(stream).wf(),
        !before.unregister(stream).is_publishing(stream),
        before.unregister(stream).apps == before.apps,
        before.unregister(stream).knows_app(stream.0),
        forall|other: StreamId|
            other != stream && before.is_publishing(other) ==> #[trigger] before.unregister(
                stream,
            ).is_publishing(other),
{
    let place = before.streams.index_of(stream);
    let after = before.unregister(stream);
    assert(0 <= place < before.streams.len() && before.streams[place] == stream);
    assert forall|k: int| 0 <= k < after.streams.len() implies #[trigger] after.streams[k]
        == before.streams[if k < place {
        k
    } else {
        k + 1
    }] by {}
    assert forall|a: int, b: int|
        0 <= a < after.streams.len() && 0 <= b < after.streams.len() && a != b implies after.streams[a]
        != after.streams[b] by {
        let a_old = if a < place { a } else { a + 1 };
        let b_old = if b < place { b } else { b + 1 };
        assert(after.streams[a] == before.streams[a_old]);
        assert(after.streams[b] == before.streams[b_old]);
    }
    assert forall|i: int| 0 <= i < after.streams.len() implies after.apps.contains(
        (#[trigger] after.streams[i]).0,
    ) by {
        let i_old = if i < place { i } else { i + 1 };
        assert(after.streams[i] == before.streams[i_old]);
        assert(before.apps.contains(before.streams[i_old].0));
    }
    if after.is_publishing(stream) {
        let k = choose|k: int| 0 <= k < after.streams.len() && after.streams[k] == stream;
        let k_old = if k < place { k } else { k + 1 };
        assert(after.streams[k] == before.streams[k_old]);
        assert(false);
    }
    assert forall|other: StreamId| other != stream && before.is_publishing(other) implies #[trigger] after.is_publishing(
    other) by {
        let k_old = choose|k: int| 0 <= k < before.streams.len() && before.streams[k] == other;
        let k = if k_old < place { k_old } else { k_old - 1 };
        assert(after.streams[k] == before.streams[k_old]);
    }
}

/// A published stream stays published as long as nobody asks to unpublish it.
proof fn lemma_stays_published(start: BrokerState, run: Seq<Exchange>, stream: StreamId)
    requires
        start.is_publishing(stream),
        start.allows_all(run),
        forall|i: int|
            0 <= i < run.len() ==> (#[trigger] run[i]).request != (Request::UnPublish { stream }),
    ensures
        start.after_all(run).is_publishing(stream),
    decreases run.len(),
{
    if run.len() > 0 {
        let earlier = run.drop_last();
        assert forall|i: int| 0 <= i < earlier.len() implies (#[trigger] earlier[i]).request != (
        Request::UnPublish { stream }) by {
            assert(earlier[i] == run[i]);
        }
        lemma_stays_published(start, earlier, stream);
        let before = start.after_all(earlier);
        let last = run.last();
        assert(last == run[run.len() - 1]);
        match last.request {
            Request::Publish { stream: other } => {
                if !before.is_publishing(other) {
                    let k = choose|k: int| 0 <= k < before.streams.len() && before.streams[k] == stream;
                    assert(before.streams.push(other)[k] == stream);
                }
            },
            Request::UnPublish { stream: other } => {
                if before.refusal(other) is None && last.outcome is Ok {
                    let sent = before.forward(other, ControlEvent::UnPublish);
                    lemma_remove_keeps_others(sent.streams, other, stream);
                }
            },
            Request::Subscribe { stream: other, key, player } => {},
            Request::UnSubscribe { stream: other, key } => {},
            Request::Api { sender } => {},
            Request::Other => {},
        }
    }
}

/// Striking one value from a run leaves every other value in it.
proof fn lemma_remove_keeps_others(run: Seq<StreamId>, struck: StreamId, kept: StreamId)
    requires
        run.contains(struck),
        run.contains(kept),
        struck != kept,
    ensures
        run.remove(run.index_of(struck)).contains(kept),
{
    let place = run.index_of(struck);
    assert(0 <= place < run.len() && run[place] == struck);
    let k_old = choose|k: int| 0 <= k < run.len() && run[k] == kept;
    let k = if k_old < place { k_old } else { k_old - 1 };
    assert(run.remove(place)[k] == run[k_old]);
}

} // verus!