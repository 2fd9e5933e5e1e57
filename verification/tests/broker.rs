use gms::channels::define::{ChannelData, ChannelEvent, ClientEvent, TransmitterEvent};
use gms::channels::errors::{ChannelError, ChannelErrorValue};
use gms::channels::manager::Handled;
use gms::channels::transmitter::{DataStep, TransmitterStep};
use gms::channels::ChannelsManager;
use gms::session::common::SubscriberInfo;
use gms::session::define::SubscribeType;
use gms::statistics::StreamStatistics;
use tokio::sync::broadcast::error::TryRecvError;
use tokio::sync::{mpsc, oneshot};
use uuid::Uuid;

fn name(text: &str) -> String {
    String::from(text)
}

fn info(id: u128) -> SubscriberInfo {
    SubscriberInfo { id: Uuid::from_u128(id), sub_type: SubscribeType::PlayerRtmp }
}

fn error_of<T>(result: Result<T, ChannelError>) -> ChannelErrorValue {
    match result {
        Ok(_) => panic!("the request was expected to fail"),
        Err(error) => error.value,
    }
}

fn stream_of(event: ClientEvent) -> (char, String, String) {
    match event {
        ClientEvent::Publish { app_name, stream_name } => ('P', app_name, stream_name),
        ClientEvent::UnPublish { app_name, stream_name } => ('U', app_name, stream_name),
        ClientEvent::Subscribe { app_name, stream_name } => ('S', app_name, stream_name),
        ClientEvent::UnSubscribe { app_name, stream_name } => ('u', app_name, stream_name),
    }
}

#[test]
fn fresh_broker_has_no_stream() {
    let mut manager = ChannelsManager::default();
    assert_eq!(manager.stream_count(), 0);
    assert!(!manager.knows_app(&name("live")));
    assert!(!manager.is_publishing(&name("live"), &name("a")));
    assert!(manager.take_spawned().is_empty());
    assert!(manager.take_channel_event_consumer().is_some());
    assert!(manager.take_channel_event_consumer().is_none());
}

#[test]
fn second_publish_is_refused() {
    let mut manager = ChannelsManager::new();
    assert!(manager.publish(&name("live"), &name("a")).is_ok());
    assert!(manager.is_publishing(&name("live"), &name("a")));
    assert!(manager.knows_app(&name("live")));
    assert!(matches!(
        error_of(manager.publish(&name("live"), &name("a"))),
        ChannelErrorValue::Exists
    ));
    // Other requests in between do not change that.
    assert!(manager.publish(&name("live"), &name("b")).is_ok());
    assert!(manager.subscribe(&name("live"), &name("a"), info(1)).is_ok());
    assert!(manager.unpublish(&name("live"), &name("b")).is_ok());
    manager.set_rtmp_gop_num(4);
    assert!(matches!(
        error_of(manager.publish(&name("live"), &name("a"))),
        ChannelErrorValue::Exists
    ));
    assert_eq!(manager.stream_count(), 1);
    assert_eq!(manager.take_spawned().len(), 2);
}

#[test]
fn names_are_compared_letter_for_letter() {
    let mut manager = ChannelsManager::new();
    assert!(manager.publish(&name("live"), &name("a")).is_ok());
    assert!(manager.publish(&name("live"), &name("A")).is_ok());
    assert!(manager.publish(&name("Live"), &name("a")).is_ok());
    assert!(manager.publish(&name("live "), &name("a")).is_ok());
    assert!(manager.publish(&name("a"), &name("live")).is_ok());
    assert_eq!(manager.stream_count(), 5);
}

#[test]
fn publish_after_unpublish_succeeds() {
    let mut manager = ChannelsManager::new();
    assert!(manager.publish(&name("live"), &name("a")).is_ok());
    let _tasks = manager.take_spawned();
    assert!(manager.unpublish(&name("live"), &name("a")).is_ok());
    assert!(!manager.is_publishing(&name("live"), &name("a")));
    assert!(manager.publish(&name("live"), &name("a")).is_ok());
    assert!(manager.is_publishing(&name("live"), &name("a")));
}

#[test]
fn second_unpublish_is_refused() {
    let mut manager = ChannelsManager::new();
    assert!(manager.publish(&name("live"), &name("a")).is_ok());
    let _tasks = manager.take_spawned();
    assert!(manager.unpublish(&name("live"), &name("a")).is_ok());
    assert!(matches!(
        error_of(manager.unpublish(&name("live"), &name("a"))),
        ChannelErrorValue::NoStreamName
    ));
    assert!(manager.knows_app(&name("live")));
}

#[test]
fn unpublish_of_unknown_names_is_refused() {
    let mut manager = ChannelsManager::new();
    assert!(matches!(
        error_of(manager.unpublish(&name("live"), &name("a"))),
        ChannelErrorValue::NoAppName
    ));
    assert!(manager.publish(&name("live"), &name("a")).is_ok());
    assert!(matches!(
        error_of(manager.unpublish(&name("live"), &name("b"))),
        ChannelErrorValue::NoStreamName
    ));
    assert!(matches!(
        error_of(manager.unpublish(&name("other"), &name("a"))),
        ChannelErrorValue::NoAppName
    ));
}

#[test]
fn unpublish_tells_the_transmitter_to_stop() {
    let mut manager = ChannelsManager::new();
    assert!(manager.publish(&name("live"), &name("a")).is_ok());
    let mut tasks = manager.take_spawned();
    assert!(manager.unpublish(&name("live"), &name("a")).is_ok());
    let mut task = tasks.pop().expect("one stream was published");
    let event = task.event_consumer.try_recv().expect("an event");
    assert!(matches!(task.transmitter.on_event(event), Ok(TransmitterStep::Finished)));
}

#[test]
fn unpublish_fails_when_the_transmitter_is_gone() {
    let mut manager = ChannelsManager::new();
    assert!(manager.publish(&name("live"), &name("a")).is_ok());
    drop(manager.take_spawned());
    assert!(matches!(
        error_of(manager.unpublish(&name("live"), &name("a"))),
        ChannelErrorValue::SendError
    ));
    // The stream stays entered.
    assert!(manager.is_publishing(&name("live"), &name("a")));
}

#[test]
fn published_stream_gets_the_configured_window() {
    let mut manager = ChannelsManager::new();
    manager.set_rtmp_gop_num(0);
    assert!(manager.publish(&name("live"), &name("off")).is_ok());
    manager.set_rtmp_gop_num(1);
    assert!(manager.publish(&name("live"), &name("on")).is_ok());
    let tasks = manager.take_spawned();
    assert_eq!(tasks.len(), 2);
    assert_eq!(tasks[0].transmitter.cache().stream_name(), "off");
    assert!(tasks[0].transmitter.cache().get_gops_data().is_none());
    assert_eq!(tasks[1].transmitter.cache().app_name(), "live");
    assert_eq!(tasks[1].transmitter.cache().stream_name(), "on");
    assert!(tasks[1].transmitter.cache().get_gops_data().is_some());
}

#[test]
fn frames_travel_from_publisher_to_subscriber() {
    let mut manager = ChannelsManager::new();
    let producer = manager.publish(&name("live"), &name("a")).ok().expect("published");
    let mut task = manager.take_spawned().pop().expect("one stream was published");
    let mut consumer = manager.subscribe(&name("live"), &name("a"), info(7)).ok().expect("ok");

    let event = task.event_consumer.try_recv().expect("the subscribe event");
    assert!(matches!(event, TransmitterEvent::Subscribe { .. }));
    assert!(matches!(task.transmitter.on_event(event), Ok(TransmitterStep::Continue)));

    let body = [0x17, 0x01, 0, 0, 0, 42];
    producer
        .send(ChannelData::Video { timestamp: 5, data: bytes::BytesMut::from(&body[..]) })
        .ok()
        .expect("the transmitter listens");
    let frame = task.data_consumer.try_recv().expect("the frame");
    assert!(matches!(task.transmitter.on_data(frame), Ok(DataStep::Video { .. })));

    match consumer.try_recv().expect("the frame went out") {
        ChannelData::Video { timestamp, data } => {
            assert_eq!(timestamp, 5);
            assert_eq!(data.to_vec(), body.to_vec());
        }
        _ => panic!("a video frame was expected"),
    }
}

#[test]
fn subscribe_without_publisher_and_without_pull_is_silent() {
    let mut manager = ChannelsManager::new();
    let mut intents = manager.get_client_event_consumer();
    assert!(matches!(
        error_of(manager.subscribe(&name("live"), &name("a"), info(1))),
        ChannelErrorValue::NoAppOrStreamName
    ));
    assert!(matches!(intents.try_recv(), Err(TryRecvError::Empty)));
}

#[test]
fn subscribe_without_publisher_asks_for_a_pull() {
    let mut manager = ChannelsManager::new();
    manager.set_rtmp_pull_enabled(true);
    let mut intents = manager.get_client_event_consumer();
    assert!(matches!(
        error_of(manager.subscribe(&name("live"), &name("a"), info(1))),
        ChannelErrorValue::NoAppOrStreamName
    ));
    let event = intents.try_recv().expect("an intent");
    assert_eq!(stream_of(event), ('S', name("live"), name("a")));
    assert!(matches!(intents.try_recv(), Err(TryRecvError::Empty)));
}

#[test]
fn each_request_sends_one_notice_of_its_own_kind() {
    let mut manager = ChannelsManager::new();
    manager.set_rtmp_pull_enabled(true);
    manager.set_rtmp_push_enabled(true);
    let mut first = manager.get_client_event_consumer();
    let mut second = manager.get_client_event_consumer();

    assert!(manager.subscribe(&name("live"), &name("s"), info(1)).is_err());
    assert!(manager.publish(&name("live"), &name("s")).is_ok());
    assert!(manager.publish(&name("live"), &name("s")).is_err());
    let _tasks = manager.take_spawned();
    assert!(manager.subscribe(&name("live"), &name("s"), info(1)).is_ok());

    for intents in [&mut first, &mut second] {
        assert_eq!(
            stream_of(intents.try_recv().expect("an intent")),
            ('S', name("live"), name("s"))
        );
        assert_eq!(
            stream_of(intents.try_recv().expect("an intent")),
            ('P', name("live"), name("s"))
        );
        assert!(matches!(intents.try_recv(), Err(TryRecvError::Empty)));
    }
}

#[test]
fn pull_request_needs_no_listener() {
    let mut manager = ChannelsManager::new();
    manager.set_rtmp_pull_enabled(true);
    assert!(matches!(
        error_of(manager.subscribe(&name("live"), &name("a"), info(1))),
        ChannelErrorValue::NoAppOrStreamName
    ));
    assert!(!manager.is_publishing(&name("live"), &name("a")));
    assert!(!manager.knows_app(&name("live")));
}

#[test]
fn subscribe_to_a_live_stream_emits_no_intent() {
    let mut manager = ChannelsManager::new();
    manager.set_rtmp_pull_enabled(true);
    let mut intents = manager.get_client_event_consumer();
    assert!(manager.publish(&name("live"), &name("a")).is_ok());
    let _tasks = manager.take_spawned();
    assert!(manager.subscribe(&name("live"), &name("a"), info(1)).is_ok());
    assert!(matches!(intents.try_recv(), Err(TryRecvError::Empty)));
}

#[test]
fn publish_is_announced_when_push_or_hls_is_on() {
    let mut manager = ChannelsManager::new();
    let mut intents = manager.get_client_event_consumer();
    assert!(manager.publish(&name("live"), &name("quiet")).is_ok());
    assert!(matches!(intents.try_recv(), Err(TryRecvError::Empty)));

    manager.set_rtmp_push_enabled(true);
    assert!(manager.publish(&name("live"), &name("pushed")).is_ok());
    assert_eq!(stream_of(intents.try_recv().expect("an intent")), ('P', name("live"), name("pushed")));

    manager.set_rtmp_push_enabled(false);
    manager.set_hls_enabled(true);
    assert!(manager.publish(&name("live"), &name("hls")).is_ok());
    assert_eq!(stream_of(intents.try_recv().expect("an intent")), ('P', name("live"), name("hls")));
    assert!(matches!(intents.try_recv(), Err(TryRecvError::Empty)));
}

#[test]
fn announced_publish_needs_no_listener() {
    let mut manager = ChannelsManager::new();
    manager.set_hls_enabled(true);
    manager.set_rtmp_push_enabled(true);
    assert!(manager.publish(&name("live"), &name("a")).is_ok());
    assert!(manager.is_publishing(&name("live"), &name("a")));
    assert_eq!(manager.take_spawned().len(), 1);
    assert!(matches!(
        error_of(manager.publish(&name("live"), &name("a"))),
        ChannelErrorValue::Exists
    ));
}

#[test]
fn refused_publish_leaves_the_first_publisher_in_place() {
    let mut manager = ChannelsManager::new();
    let first = manager.publish(&name("live"), &name("a")).ok().expect("published");
    let mut task = manager.take_spawned().pop().expect("one stream was published");
    assert!(matches!(
        error_of(manager.publish(&name("live"), &name("a"))),
        ChannelErrorValue::Exists
    ));
    assert!(manager.take_spawned().is_empty());
    assert_eq!(manager.stream_count(), 1);

    // The first publisher's handle still feeds the transmitter, and the
    // broker still talks to that transmitter.
    let body = [0x17, 0x01, 0, 0, 0, 9];
    first
        .send(ChannelData::Video { timestamp: 1, data: bytes::BytesMut::from(&body[..]) })
        .ok()
        .expect("the transmitter listens");
    assert!(task.data_consumer.try_recv().is_ok());
    assert!(manager.unpublish(&name("live"), &name("a")).is_ok());
    assert!(matches!(
        task.event_consumer.try_recv().expect("an event"),
        TransmitterEvent::UnPublish {}
    ));
}

#[test]
fn answers_carry_the_handles_of_the_request() {
    let mut manager = ChannelsManager::new();
    let (responder, mut answer) = oneshot::channel();
    let handled = manager.handle_event(ChannelEvent::Publish {
        app_name: name("live"),
        stream_name: name("a"),
        responder,
    });
    assert!(matches!(handled, Handled::Done));
    let producer = answer.try_recv().expect("the answer");
    let mut task = manager.take_spawned().pop().expect("one stream was published");

    let (responder, mut answer) = oneshot::channel();
    let handled = manager.handle_event(ChannelEvent::Subscribe {
        app_name: name("live"),
        stream_name: name("a"),
        info: info(4),
        responder,
    });
    assert!(matches!(handled, Handled::Done));
    let mut consumer = answer.try_recv().expect("the answer");

    // The two answers are the two ends of the stream.
    let event = task.event_consumer.try_recv().expect("the subscribe event");
    assert!(matches!(task.transmitter.on_event(event), Ok(TransmitterStep::Continue)));
    let body = [0x27, 0x01, 0, 0, 0, 5];
    producer
        .send(ChannelData::Video { timestamp: 3, data: bytes::BytesMut::from(&body[..]) })
        .ok()
        .expect("the transmitter listens");
    let frame = task.data_consumer.try_recv().expect("the frame");
    assert!(matches!(task.transmitter.on_data(frame), Ok(DataStep::Video { .. })));
    assert!(matches!(consumer.try_recv(), Ok(ChannelData::Video { timestamp: 3, .. })));

    // A refused request gets no answer.
    let (responder, mut answer) = oneshot::channel();
    let handled = manager.handle_event(ChannelEvent::Publish {
        app_name: name("live"),
        stream_name: name("a"),
        responder,
    });
    assert!(matches!(handled, Handled::Failed(_)));
    assert!(answer.try_recv().is_err());
    let (responder, mut answer) = oneshot::channel();
    let handled = manager.handle_event(ChannelEvent::Subscribe {
        app_name: name("live"),
        stream_name: name("missing"),
        info: info(4),
        responder,
    });
    assert!(matches!(handled, Handled::Failed(_)));
    assert!(answer.try_recv().is_err());
}

#[test]
fn unsubscribe_goes_to_the_transmitter() {
    let mut manager = ChannelsManager::new();
    assert!(matches!(
        error_of(manager.unsubscribe(&name("live"), &name("a"), info(1))),
        ChannelErrorValue::NoAppName
    ));
    assert!(manager.publish(&name("live"), &name("a")).is_ok());
    let mut task = manager.take_spawned().pop().expect("one stream was published");
    assert!(matches!(
        error_of(manager.unsubscribe(&name("live"), &name("b"), info(1))),
        ChannelErrorValue::NoStreamName
    ));
    assert!(manager.unsubscribe(&name("live"), &name("a"), info(1)).is_ok());
    match task.event_consumer.try_recv().expect("an event") {
        TransmitterEvent::UnSubscribe { info } => assert_eq!(info.key(), 1),
        _ => panic!("an unsubscribe event was expected"),
    }
    drop(task);
    assert!(matches!(
        error_of(manager.unsubscribe(&name("live"), &name("a"), info(1))),
        ChannelErrorValue::SendError
    ));
}

#[test]
fn statistics_query_reaches_every_stream_and_counts_them() {
    let mut manager = ChannelsManager::new();
    assert!(manager.publish(&name("live"), &name("a")).is_ok());
    assert!(manager.publish(&name("live"), &name("b")).is_ok());
    assert!(manager.publish(&name("vod"), &name("c")).is_ok());
    let mut tasks = manager.take_spawned();

    let (data_sender, _data_receiver) = mpsc::unbounded_channel::<StreamStatistics>();
    let (size_sender, mut size_receiver) = oneshot::channel::<usize>();
    assert!(manager.api(data_sender, size_sender).is_ok());
    assert_eq!(size_receiver.try_recv().expect("the count"), 3);
    for task in tasks.iter_mut() {
        assert!(matches!(
            task.event_consumer.try_recv().expect("a query"),
            TransmitterEvent::Api { .. }
        ));
    }
}

#[test]
fn statistics_query_on_an_empty_broker_counts_zero() {
    let mut manager = ChannelsManager::new();
    let (data_sender, _data_receiver) = mpsc::unbounded_channel::<StreamStatistics>();
    let (size_sender, mut size_receiver) = oneshot::channel::<usize>();
    assert!(manager.api(data_sender, size_sender).is_ok());
    assert_eq!(size_receiver.try_recv().expect("the count"), 0);
}

#[test]
fn statistics_query_stops_at_the_first_dead_transmitter() {
    let mut manager = ChannelsManager::new();
    assert!(manager.publish(&name("live"), &name("a")).is_ok());
    assert!(manager.publish(&name("live"), &name("b")).is_ok());
    assert!(manager.publish(&name("live"), &name("c")).is_ok());
    let mut tasks = manager.take_spawned();
    let last = tasks.pop().expect("three streams");
    let middle = tasks.pop().expect("three streams");
    let mut first = tasks.pop().expect("three streams");
    drop(middle);
    let mut last = last;

    let (data_sender, _data_receiver) = mpsc::unbounded_channel::<StreamStatistics>();
    let (size_sender, mut size_receiver) = oneshot::channel::<usize>();
    assert!(matches!(
        error_of(manager.api(data_sender, size_sender)),
        ChannelErrorValue::SendError
    ));
    assert!(first.event_consumer.try_recv().is_ok());
    assert!(last.event_consumer.try_recv().is_err());
    assert!(size_receiver.try_recv().is_err());
}

#[test]
fn statistics_query_fails_when_the_asker_is_gone() {
    let mut manager = ChannelsManager::new();
    let (data_sender, _data_receiver) = mpsc::unbounded_channel::<StreamStatistics>();
    let (size_sender, size_receiver) = oneshot::channel::<usize>();
    drop(size_receiver);
    assert!(matches!(
        error_of(manager.api(data_sender, size_sender)),
        ChannelErrorValue::SendError
    ));
}

#[test]
fn every_request_handle_feeds_the_one_request_queue() {
    let mut manager = ChannelsManager::new();
    let first = manager.get_channel_event_producer();
    manager.set_rtmp_pull_enabled(true);
    assert!(manager.publish(&name("live"), &name("a")).is_ok());
    let second = manager.get_channel_event_producer();
    assert!(first.same_channel(&second));

    let other = ChannelsManager::new().get_channel_event_producer();
    assert!(!first.same_channel(&other));

    let mut requests = manager.take_channel_event_consumer().expect("the first taker");
    let third = manager.get_channel_event_producer();
    assert!(third.same_channel(&first));
    first
        .send(ChannelEvent::UnPublish { app_name: name("live"), stream_name: name("a") })
        .ok()
        .expect("the broker listens");
    third
        .send(ChannelEvent::UnPublish { app_name: name("live"), stream_name: name("b") })
        .ok()
        .expect("the broker listens");
    match requests.try_recv().expect("the first request") {
        ChannelEvent::UnPublish { stream_name, .. } => assert_eq!(stream_name, "a"),
        _ => panic!("an unpublish request was expected"),
    }
    match requests.try_recv().expect("the second request") {
        ChannelEvent::UnPublish { stream_name, .. } => assert_eq!(stream_name, "b"),
        _ => panic!("an unpublish request was expected"),
    }
}

#[test]
fn requests_arrive_through_the_request_queue() {
    let mut manager = ChannelsManager::new();
    let sessions = manager.get_channel_event_producer();
    let mut requests = manager.take_channel_event_consumer().expect("the first taker");

    let (responder, mut answer) = oneshot::channel();
    sessions
        .send(ChannelEvent::Publish { app_name: name("live"), stream_name: name("a"), responder })
        .ok()
        .expect("the broker listens");
    let message = requests.try_recv().expect("a request");
    assert!(matches!(manager.handle_event(message), Handled::Done));
    assert!(answer.try_recv().is_ok());
    assert!(manager.is_publishing(&name("live"), &name("a")));
    assert_eq!(manager.take_spawned().len(), 1);
}

#[test]
fn handled_requests_report_how_they_ended() {
    let mut manager = ChannelsManager::new();

    let (responder, answer) = oneshot::channel();
    drop(answer);
    let handled = manager.handle_event(ChannelEvent::Publish {
        app_name: name("live"),
        stream_name: name("a"),
        responder,
    });
    assert!(matches!(handled, Handled::Unanswered));
    assert!(manager.is_publishing(&name("live"), &name("a")));
    let _tasks = manager.take_spawned();

    let (responder, _answer) = oneshot::channel();
    let handled = manager.handle_event(ChannelEvent::Publish {
        app_name: name("live"),
        stream_name: name("a"),
        responder,
    });
    assert!(matches!(
        handled,
        Handled::Failed(ChannelError { value: ChannelErrorValue::Exists })
    ));

    let (responder, mut answer) = oneshot::channel();
    let handled = manager.handle_event(ChannelEvent::Subscribe {
        app_name: name("live"),
        stream_name: name("a"),
        info: info(3),
        responder,
    });
    assert!(matches!(handled, Handled::Done));
    assert!(answer.try_recv().is_ok());

    let (responder, _answer) = oneshot::channel();
    let handled = manager.handle_event(ChannelEvent::Subscribe {
        app_name: name("live"),
        stream_name: name("missing"),
        info: info(3),
        responder,
    });
    assert!(matches!(
        handled,
        Handled::Failed(ChannelError { value: ChannelErrorValue::NoAppOrStreamName })
    ));

    let handled = manager.handle_event(ChannelEvent::UnSubscribe {
        app_name: name("live"),
        stream_name: name("a"),
        info: info(3),
    });
    assert!(matches!(handled, Handled::Done));

    let (data_sender, _data_receiver) = mpsc::unbounded_channel::<StreamStatistics>();
    let (size_sender, mut size_receiver) = oneshot::channel::<usize>();
    let handled = manager.handle_event(ChannelEvent::Api { data_sender, size_sender });
    assert!(matches!(handled, Handled::Done));
    assert_eq!(size_receiver.try_recv().expect("the count"), 1);

    let handled = manager.handle_event(ChannelEvent::UnPublish {
        app_name: name("live"),
        stream_name: name("a"),
    });
    assert!(matches!(handled, Handled::Done));
    let handled = manager.handle_event(ChannelEvent::UnPublish {
        app_name: name("live"),
        stream_name: name("a"),
    });
    assert!(matches!(
        handled,
        Handled::Failed(ChannelError { value: ChannelErrorValue::NoStreamName })
    ));
}
