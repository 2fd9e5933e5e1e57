//! The values that travel between sessions, the broker and the transmitters.

use bytes::BytesMut;
use tokio::sync::{broadcast, mpsc, oneshot};
use vstd::prelude::*;
use vstd::string::StringExecFns;

use crate::buffer::bytes_of;
use crate::session::common::{uuid_text, SubscriberInfo};
use crate::statistics::StreamStatistics;

verus! {

/// One unit of media as a publisher hands it in and a subscriber gets it out.
pub enum ChannelData {
    Video { timestamp: u32, data: BytesMut },
    Audio { timestamp: u32, data: BytesMut },
    MetaData { timestamp: u32, data: BytesMut },
}

/// The three kinds of frame.
pub enum MediaKind {
    Video,
    Audio,
    MetaData,
}

/// A frame as a mathematical value: its kind, its presentation timestamp and
/// the bytes of its payload.
pub ghost struct MediaFrame {
    pub kind: MediaKind,
    pub timestamp: u32,
    pub payload: Seq<u8>,
}

impl MediaFrame {
    pub open spec fn video(timestamp: u32, payload: Seq<u8>) -> MediaFrame {
        MediaFrame { kind: MediaKind::Video, timestamp, payload }
    }

    pub open spec fn audio(timestamp: u32, payload: Seq<u8>) -> MediaFrame {
        MediaFrame { kind: MediaKind::Audio, timestamp, payload }
    }

    pub open spec fn metadata(timestamp: u32, payload: Seq<u8>) -> MediaFrame {
        MediaFrame { kind: MediaKind::MetaData, timestamp, payload }
    }
}

impl View for ChannelData {
    type V = MediaFrame;

    open spec fn view(&self) -> MediaFrame {
        match *self {
            ChannelData::Video { timestamp, data } => MediaFrame::video(timestamp, bytes_of(data)),
            ChannelData::Audio { timestamp, data } => MediaFrame::audio(timestamp, bytes_of(data)),
            ChannelData::MetaData { timestamp, data } => MediaFrame::metadata(
                timestamp,
                bytes_of(data),
            ),
        }
    }
}

impl Clone for ChannelData {
    /// The copy is the same frame, held in a buffer of its own.
    fn clone(&self) -> (copy: Self)
        ensures
            copy@ == self@,
    {
        match self {
            ChannelData::Video { timestamp, data } => ChannelData::Video {
                timestamp: *timestamp,
                data: data.clone(),
            },
            ChannelData::Audio { timestamp, data } => ChannelData::Audio {
                timestamp: *timestamp,
                data: data.clone(),
            },
            ChannelData::MetaData { timestamp, data } => ChannelData::MetaData {
                timestamp: *timestamp,
                data: data.clone(),
            },
        }
    }
}

/// The frames that a run of `ChannelData` values stands for, in the same order.
pub open spec fn frames_view(frames: Seq<ChannelData>) -> Seq<MediaFrame> {
    Seq::new(frames.len(), |i: int| frames[i]@)
}

pub type ChannelDataProducer = mpsc::UnboundedSender<ChannelData>;

pub type ChannelDataConsumer = mpsc::UnboundedReceiver<ChannelData>;

pub type ChannelEventProducer = mpsc::UnboundedSender<ChannelEvent>;

pub type ChannelEventConsumer = mpsc::UnboundedReceiver<ChannelEvent>;

pub type ClientEventProducer = broadcast::Sender<ClientEvent>;

pub type ClientEventConsumer = broadcast::Receiver<ClientEvent>;

pub type TransmitterEventProducer = mpsc::UnboundedSender<TransmitterEvent>;

pub type TransmitterEventConsumer = mpsc::UnboundedReceiver<TransmitterEvent>;

pub type AvStatisticSender = mpsc::UnboundedSender<StreamStatistics>;

pub type AvStatisticReceiver = mpsc::UnboundedReceiver<StreamStatistics>;

pub type StreamStatisticSizeSender = oneshot::Sender<usize>;

pub type ChannelResponder<T> = oneshot::Sender<T>;

/// What a session asks of the broker.
#[allow(inconsistent_fields)]
pub enum ChannelEvent {
    Subscribe {
        app_name: String,
        stream_name: String,
        info: SubscriberInfo,
        responder: ChannelResponder<ChannelDataConsumer>,
    },
    UnSubscribe { app_name: String, stream_name: String, info: SubscriberInfo },
    Publish {
        app_name: String,
        stream_name: String,
        responder: ChannelResponder<ChannelDataProducer>,
    },
    UnPublish { app_name: String, stream_name: String },
    Api { data_sender: AvStatisticSender, size_sender: StreamStatisticSizeSender },
}

/// The line that the broker logs for a request that names a stream.
pub open spec fn stream_event_text(
    event_name: Seq<char>,
    app_name: Seq<char>,
    stream_name: Seq<char>,
) -> Seq<char> {
    "receive event, event_name: "@ + event_name + ", app_name: "@ + app_name + ",stream_name: "@
        + stream_name
}

/// The line that the broker logs for a request that names a stream and a
/// subscriber.
pub open spec fn subscriber_event_text(
    event_name: Seq<char>,
    app_name: Seq<char>,
    stream_name: Seq<char>,
    key: u128,
) -> Seq<char> {
    stream_event_text(event_name, app_name, stream_name) + ", subscriber id: "@ + uuid_text(key)
}

fn stream_event_line(event_name: &str, app_name: &String, stream_name: &String) -> (line: String)
    ensures
        line@ == stream_event_text(event_name@, app_name@, stream_name@),
{
    let mut line = String::from_str("receive event, event_name: ");
    line.append(event_name);
    line.append(", app_name: ");
    line.append(app_name.as_str());
    line.append(",stream_name: ");
    line.append(stream_name.as_str());
    line
}

fn subscriber_event_line(
    event_name: &str,
    app_name: &String,
    stream_name: &String,
    info: &SubscriberInfo,
) -> (line: String)
    ensures
        line@ == subscriber_event_text(event_name@, app_name@, stream_name@, info.key()),
{
    let mut line = stream_event_line(event_name, app_name, stream_name);
    line.append(", subscriber id: ");
    let id = info.id_text();
    line.append(id.as_str());
    line
}

impl ChannelEvent {
    /// The request in words, as the broker logs it.
    pub open spec fn text(&self) -> Seq<char> {
        match *self {
            ChannelEvent::Subscribe {
                app_name,
                stream_name,
                info,
                responder,
            } => subscriber_event_text("Subscribe"@, app_name@, stream_name@, info.key()),
            ChannelEvent::UnSubscribe { app_name, stream_name, info } => subscriber_event_text(
                "UnSubscribe"@,
                app_name@,
                stream_name@,
                info.key(),
            ),
            ChannelEvent::Publish { app_name, stream_name, responder } => stream_event_text(
                "Publish"@,
                app_name@,
                stream_name@,
            ),
            ChannelEvent::UnPublish { app_name, stream_name } => stream_event_text(
                "UnPublish"@,
                app_name@,
                stream_name@,
            ),
            ChannelEvent::Api { data_sender, size_sender } => "receive event, event_name: Api"@,
        }
    }

    /// Writes the request out in words.
    pub fn describe(&self) -> (line: String)
        ensures
            line@ == self.text(),
    {
        match self {
            ChannelEvent::Subscribe {
                app_name,
                stream_name,
                info,
                responder: _,
            } => subscriber_event_line("Subscribe", app_name, stream_name, info),
            ChannelEvent::UnSubscribe { app_name, stream_name, info } => subscriber_event_line(
                "UnSubscribe",
                app_name,
                stream_name,
                info,
            ),
            ChannelEvent::Publish { app_name, stream_name, responder: _ } => stream_event_line(
                "Publish",
                app_name,
                stream_name,
            ),
            ChannelEvent::UnPublish { app_name, stream_name } => stream_event_line(
                "UnPublish",
                app_name,
                stream_name,
            ),
            ChannelEvent::Api { data_sender: _, size_sender: _ } => String::from_str(
                "receive event, event_name: Api",
            ),
        }
    }
}

/// What the broker asks of the transmitter of one stream.
pub enum TransmitterEvent {
    Subscribe { producer: ChannelDataProducer, info: SubscriberInfo },
    UnSubscribe { info: SubscriberInfo },
    UnPublish {  },
    Api { sender: AvStatisticSender },
}

/// What the broker tells the relay clients.
#[derive(Debug, Clone)]
pub enum ClientEvent {
    /// A stream is to be pushed to another server.
    Publish { app_name: String, stream_name: String },
    UnPublish { app_name: String, stream_name: String },
    /// A stream is to be pulled from another server.
    Subscribe { app_name: String, stream_name: String },
    UnSubscribe { app_name: String, stream_name: String },
}

/// A stream's identity: application name and stream name, compared letter
/// for letter.
pub type StreamId = (Seq<char>, Seq<char>);

/// A notice to the relay clients as a mathematical value.
pub ghost enum ClientIntent {
    Publish { stream: StreamId },
    UnPublish { stream: StreamId },
    Subscribe { stream: StreamId },
    UnSubscribe { stream: StreamId },
}

impl View for ClientEvent {
    type V = ClientIntent;

    open spec fn view(&self) -> ClientIntent {
        match *self {
            ClientEvent::Publish { app_name, stream_name } => ClientIntent::Publish {
                stream: (app_name@, stream_name@),
            },
            ClientEvent::UnPublish { app_name, stream_name } => ClientIntent::UnPublish {
                stream: (app_name@, stream_name@),
            },
            ClientEvent::Subscribe { app_name, stream_name } => ClientIntent::Subscribe {
                stream: (app_name@, stream_name@),
            },
            ClientEvent::UnSubscribe { app_name, stream_name } => ClientIntent::UnSubscribe {
                stream: (app_name@, stream_name@),
            },
        }
    }
}

impl ClientEvent {
    /// The notice that a stream is published, for the clients that push it
    /// on.
    pub fn publish(app_name: &String, stream_name: &String) -> (event: ClientEvent)
        ensures
            event@ == (ClientIntent::Publish { stream: (app_name@, stream_name@) }),
    {
        ClientEvent::Publish { app_name: app_name.clone(), stream_name: stream_name.clone() }
    }

    /// The notice that a stream is wanted, for the clients that pull it in.
    pub fn subscribe(app_name: &String, stream_name: &String) -> (event: ClientEvent)
        ensures
            event@ == (ClientIntent::Subscribe { stream: (app_name@, stream_name@) }),
    {
        ClientEvent::Subscribe { app_name: app_name.clone(), stream_name: stream_name.clone() }
    }
}

} // verus!
