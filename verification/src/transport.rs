//! Streaming transport: the rules of the one connection that carries the
//! audio of a capture to the recognition endpoint and the results back.
//!
//! The transport is a state machine.  The caller owns the socket and the
//! frame channel, tells the machine what happened (`TransportEvent`) and does
//! what the machine answers (`TransportAction`).  There is no reconnect: the
//! first failure, the first close or the end of the capture ends the
//! transport for good.

use vstd::prelude::*;
use vstd::string::StringExecFns;
use crate::error::AudioError;
use crate::text::is_suffix;
use crate::text::str_ends_with;

verus! {

/// Longest time, in seconds, that the caller waits for the connection to
/// open or for one message to be written.  A wait that ends by this limit is
/// reported to the transport as a failed connect or a failed send.  Reads are
/// not limited: between two results the endpoint may be silent for any time.
pub const IO_TIMEOUT_SECS: u64 = 30;

/// The resource path of the recognition service.
pub open spec fn resource_path() -> Seq<char> {
    "/asr"@
}

/// The address that the transport connects to: the configured endpoint, with
/// the resource path appended unless the endpoint already ends with it.
pub open spec fn normalized(endpoint: Seq<char>) -> Seq<char> {
    if is_suffix(resource_path(), endpoint) {
        endpoint
    } else {
        endpoint + resource_path()
    }
}

/// Every normalised address ends with the resource path, and normalising it
/// again changes nothing.
pub proof fn lemma_normalized_once(endpoint: Seq<char>)
    ensures
        is_suffix(resource_path(), normalized(endpoint)),
        normalized(normalized(endpoint)) == normalized(endpoint),
{
    let path = resource_path();
    if !is_suffix(path, endpoint) {
        let joined = endpoint + path;
        assert(joined.subrange(joined.len() - path.len(), joined.len() as int) =~= path);
    }
}

/// The address to connect to for the configured `endpoint`.
pub fn normalize_endpoint(endpoint: &str) -> (url: String)
    ensures
        url@ == normalized(endpoint@),
{
    if str_ends_with(endpoint, "/asr") {
        String::from_str(endpoint)
    } else {
        String::from_str(endpoint).concat("/asr")
    }
}

/// Why a transport ended.
#[derive(Clone, Copy, Debug, PartialEq, Eq, Structural)]
pub enum TransportExit {
    /// The connection could not be opened.
    ConnectFailed,
    /// Writing a frame failed.
    SendFailed,
    /// Reading a message failed.
    ReceiveFailed,
    /// The frame channel is closed and empty: the capture was stopped.
    CaptureEnded,
    /// The endpoint closed the connection.
    RemoteClosed,
}

impl TransportExit {
    /// The failure that the exit stands for; none where the transport ended
    /// in good order.
    pub open spec fn failure(self) -> Option<AudioError> {
        match self {
            TransportExit::ConnectFailed => Some(AudioError::TransportConnectFailed),
            TransportExit::SendFailed => Some(AudioError::TransportIOError),
            TransportExit::ReceiveFailed => Some(AudioError::TransportIOError),
            TransportExit::CaptureEnded => None,
            TransportExit::RemoteClosed => None,
        }
    }

    /// The failure that the exit stands for, if any.
    pub fn to_failure(self) -> (report: Option<AudioError>)
        ensures
            report == self.failure(),
    {
        match self {
            TransportExit::ConnectFailed => Some(AudioError::TransportConnectFailed),
            TransportExit::SendFailed => Some(AudioError::TransportIOError),
            TransportExit::ReceiveFailed => Some(AudioError::TransportIOError),
            TransportExit::CaptureEnded => None,
            TransportExit::RemoteClosed => None,
        }
    }
}

/// Where a transport stands.
#[derive(Clone, Copy, Debug, PartialEq, Eq, Structural)]
pub enum TransportPhase {
    /// The connection is being opened.
    Connecting,
    /// The connection is open; frames go out and results come in.
    Streaming,
    /// The transport has ended.
    Closed(TransportExit),
}

/// What happened on the socket or on the frame channel.
#[derive(Debug)]
pub enum TransportEvent {
    /// The connection is open.
    Connected,
    /// The connection could not be opened.
    ConnectFailed,
    /// The frame channel delivered a converted audio buffer.
    Frame(Vec<u8>),
    /// The frame channel is closed and empty.
    FramesEnded,
    /// Writing a message to the socket failed.
    SendFailed,
    /// A text message arrived: a recognition result.
    Text(String),
    /// A binary message arrived.
    Binary(Vec<u8>),
    /// A close message arrived.
    Close,
    /// Another kind of message arrived (ping, pong and the like).
    Other,
    /// Reading from the socket failed.
    ReceiveFailed,
    /// The inbound stream ended without a close message.
    StreamEnded,
}

/// Mathematical value of a [`TransportEvent`].
pub enum EventView {
    Connected,
    ConnectFailed,
    Frame(Seq<u8>),
    FramesEnded,
    SendFailed,
    Text(Seq<char>),
    Binary(Seq<u8>),
    Close,
    Other,
    ReceiveFailed,
    StreamEnded,
}

impl View for TransportEvent {
    type V = EventView;

    open spec fn view(&self) -> EventView {
        match *self {
            TransportEvent::Connected => EventView::Connected,
            TransportEvent::ConnectFailed => EventView::ConnectFailed,
            TransportEvent::Frame(bytes) => EventView::Frame(bytes@),
            TransportEvent::FramesEnded => EventView::FramesEnded,
            TransportEvent::SendFailed => EventView::SendFailed,
            TransportEvent::Text(text) => EventView::Text(text@),
            TransportEvent::Binary(bytes) => EventView::Binary(bytes@),
            TransportEvent::Close => EventView::Close,
            TransportEvent::Other => EventView::Other,
            TransportEvent::ReceiveFailed => EventView::ReceiveFailed,
            TransportEvent::StreamEnded => EventView::StreamEnded,
        }
    }
}

/// What the caller does next.
#[derive(Debug)]
pub enum TransportAction {
    /// Write the buffer to the socket as one binary message.
    Send(Vec<u8>),
    /// Hand the recognition result to the subscriber.
    Deliver(String),
    /// Nothing to do.
    Nothing,
    /// End both loops and release the socket: the transport is over.
    Finish(TransportExit),
}

/// Mathematical value of a [`TransportAction`].
pub enum ActionView {
    Send(Seq<u8>),
    Deliver(Seq<char>),
    Nothing,
    Finish(TransportExit),
}

impl View for TransportAction {
    type V = ActionView;

    open spec fn view(&self) -> ActionView {
        match *self {
            TransportAction::Send(bytes) => ActionView::Send(bytes@),
            TransportAction::Deliver(text) => ActionView::Deliver(text@),
            TransportAction::Nothing => ActionView::Nothing,
            TransportAction::Finish(exit) => ActionView::Finish(exit),
        }
    }
}

/// The exit that an event causes while streaming, if it ends the transport.
pub open spec fn closing_exit(event: EventView) -> Option<TransportExit> {
    match event {
        EventView::FramesEnded => Some(TransportExit::CaptureEnded),
        EventView::SendFailed => Some(TransportExit::SendFailed),
        EventView::Close => Some(TransportExit::RemoteClosed),
        EventView::StreamEnded => Some(TransportExit::RemoteClosed),
        EventView::ReceiveFailed => Some(TransportExit::ReceiveFailed),
        _ => None,
    }
}

/// The phase after `event`.
///
/// While connecting only the outcome of the connect counts.  While streaming
/// the transport ends with the first event that ends either direction.  A
/// closed transport stays closed.
pub open spec fn next_phase(phase: TransportPhase, event: EventView) -> TransportPhase {
    match phase {
        TransportPhase::Connecting => match event {
            EventView::Connected => TransportPhase::Streaming,
            EventView::ConnectFailed => TransportPhase::Closed(TransportExit::ConnectFailed),
            _ => phase,
        },
        TransportPhase::Streaming => match closing_exit(event) {
            Some(exit) => TransportPhase::Closed(exit),
            None => phase,
        },
        TransportPhase::Closed(_) => phase,
    }
}

/// The action that answers `event`.
///
/// While streaming every frame goes out as one binary message with the same
/// bytes and every text message is delivered as it came.  The event that
/// ends the transport is answered with `Finish`.  Everything else, and every
/// event before the connection is open or after the transport has ended, is
/// answered with `Nothing`.
pub open spec fn action_for(phase: TransportPhase, event: EventView) -> ActionView {
    match phase {
        TransportPhase::Connecting => match event {
            EventView::ConnectFailed => ActionView::Finish(TransportExit::ConnectFailed),
            _ => ActionView::Nothing,
        },
        TransportPhase::Streaming => match event {
            EventView::Frame(bytes) => ActionView::Send(bytes),
            EventView::Text(text) => ActionView::Deliver(text),
            _ => match closing_exit(event) {
                Some(exit) => ActionView::Finish(exit),
                None => ActionView::Nothing,
            },
        },
        TransportPhase::Closed(_) => ActionView::Nothing,
    }
}

/// One streaming transport.
pub struct Transport {
    url: String,
    phase: TransportPhase,
}

impl Transport {
    /// The address that the transport connects to.
    pub closed spec fn spec_url(&self) -> Seq<char> {
        self.url@
    }

    /// Where the transport stands.
    pub closed spec fn spec_phase(&self) -> TransportPhase {
        self.phase
    }

    /// A transport for the configured `endpoint`, about to connect to the
    /// normalised address.
    pub fn new(endpoint: &str) -> (transport: Transport)
        ensures
            transport.spec_url() == normalized(endpoint@),
            transport.spec_phase() == TransportPhase::Connecting,
    {
        Transport { url: normalize_endpoint(endpoint), phase: TransportPhase::Connecting }
    }

    /// The address that the transport connects to.
    pub fn url(&self) -> (url: &String)
        ensures
            url@ == self.spec_url(),
    {
        &self.url
    }

    /// Where the transport stands.
    pub fn phase(&self) -> (phase: TransportPhase)
        ensures
            phase == self.spec_phase(),
    {
        self.phase
    }

    /// Whether the transport has ended.
    pub fn is_closed(&self) -> (r: bool)
        ensures
            r == (self.spec_phase() is Closed),
    {
        match self.phase {
            TransportPhase::Closed(_) => true,
            _ => false,
        }
    }

    /// Takes one event and answers with what to do.
    pub fn step(&mut self, event: TransportEvent) -> (action: TransportAction)
        ensures
            final(self).spec_url() == old(self).spec_url(),
            final(self).spec_phase() == next_phase(old(self).spec_phase(), event@),
            action@ == action_for(old(self).spec_phase(), event@),
    {
        match self.phase {
            TransportPhase::Connecting => match event {
                TransportEvent::Connected => {
                    self.phase = TransportPhase::Streaming;
                    TransportAction::Nothing
                },
                TransportEvent::ConnectFailed => {
                    self.phase = TransportPhase::Closed(TransportExit::ConnectFailed);
                    TransportAction::Finish(TransportExit::ConnectFailed)
                },
                _ => TransportAction::Nothing,
            },
            TransportPhase::Streaming => match event {
                TransportEvent::Frame(bytes) => TransportAction::Send(bytes),
                TransportEvent::Text(text) => TransportAction::Deliver(text),
                TransportEvent::FramesEnded => self.finish(TransportExit::CaptureEnded),
                TransportEvent::SendFailed => self.finish(TransportExit::SendFailed),
                TransportEvent::Close => self.finish(TransportExit::RemoteClosed),
                TransportEvent::StreamEnded => self.finish(TransportExit::RemoteClosed),
                TransportEvent::ReceiveFailed => self.finish(TransportExit::ReceiveFailed),
                _ => TransportAction::Nothing,
            },
            TransportPhase::Closed(_) => TransportAction::Nothing,
        }
    }

    fn finish(&mut self, exit: TransportExit) -> (action: TransportAction)
        ensures
            final(self).spec_url() == old(self).spec_url(),
            final(self).spec_phase() == TransportPhase::Closed(exit),
            action@ == ActionView::Finish(exit),
    {
        self.phase = TransportPhase::Closed(exit);
        TransportAction::Finish(exit)
    }
}

/// The phase after a run of events, taken one after the other.
pub open spec fn run_phase(phase: TransportPhase, events: Seq<EventView>) -> TransportPhase
    decreases events.len(),
{
    if events.len() == 0 {
        phase
    } else {
        next_phase(run_phase(phase, events.drop_last()), events.last())
    }
}

/// The actions that answer a run of events, one per event.
pub open spec fn run_actions(phase: TransportPhase, events: Seq<EventView>) -> Seq<ActionView>
    decreases events.len(),
{
    if events.len() == 0 {
        Seq::empty()
    } else {
        run_actions(phase, events.drop_last()).push(
            action_for(run_phase(phase, events.drop_last()), events.last()),
        )
    }
}

/// Picks the bytes of a frame event.
pub open spec fn offered_frame() -> spec_fn(EventView) -> Option<Seq<u8>> {
    |e: EventView|
        match e {
            EventView::Frame(bytes) => Some(bytes),
            _ => None,
        }
}

/// Picks the bytes of a send action.
pub open spec fn sent_frame() -> spec_fn(ActionView) -> Option<Seq<u8>> {
    |a: ActionView|
        match a {
            ActionView::Send(bytes) => Some(bytes),
            _ => None,
        }
}

/// Picks the text of an inbound text message.
pub open spec fn received_text() -> spec_fn(EventView) -> Option<Seq<char>> {
    |e: EventView|
        match e {
            EventView::Text(text) => Some(text),
            _ => None,
        }
}

/// Picks the text of a deliver action.
pub open spec fn delivered_text() -> spec_fn(ActionView) -> Option<Seq<char>> {
    |a: ActionView|
        match a {
            ActionView::Deliver(text) => Some(text),
            _ => None,
        }
}

proof fn lemma_filter_map_push<A, B>(s: Seq<A>, x: A, f: spec_fn(A) -> Option<B>)
    ensures
        s.push(x).filter_map(f) == match f(x) {
            Some(b) => s.filter_map(f).push(b),
            None => s.filter_map(f),
        },
{
    assert(s.push(x).drop_last() =~= s);
    match f(x) {
        Some(b) => {
            assert(s.filter_map(f) + seq![b] =~= s.filter_map(f).push(b));
        },
        None => {},
    }
}

/// A closed transport stays closed and asks for nothing more, whatever
/// happens.
pub proof fn lemma_closed_is_final(exit: TransportExit, events: Seq<EventView>)
    ensures
        run_phase(TransportPhase::Closed(exit), events) == TransportPhase::Closed(exit),
        forall|i: int|
            0 <= i < events.len() ==> #[trigger] run_actions(
                TransportPhase::Closed(exit),
                events,
            )[i] == ActionView::Nothing,
        run_actions(TransportPhase::Closed(exit), events).len() == events.len(),
    decreases events.len(),
{
    if events.len() > 0 {
        lemma_closed_is_final(exit, events.drop_last());
    }
}

/// Frames go out in the order in which the frame channel delivered them,
/// each as one message with the same bytes: what a streaming transport sends
/// over a run of events is a prefix of the frames offered to it, and all of
/// them while it is still streaming.  The same holds of the texts delivered
/// with respect to the texts received.
pub proof fn lemma_streams_in_order(events: Seq<EventView>)
    ensures
        run_actions(TransportPhase::Streaming, events).filter_map(sent_frame()).is_prefix_of(
            events.filter_map(offered_frame()),
        ),
        run_actions(TransportPhase::Streaming, events).filter_map(
            delivered_text(),
        ).is_prefix_of(events.filter_map(received_text())),
        run_phase(TransportPhase::Streaming, events) == TransportPhase::Streaming ==> {
            &&& run_actions(TransportPhase::Streaming, events).filter_map(sent_frame())
                == events.filter_map(offered_frame())
            &&& run_actions(TransportPhase::Streaming, events).filter_map(delivered_text())
                == events.filter_map(received_text())
        },
        run_phase(TransportPhase::Streaming, events) != TransportPhase::Connecting,
    decreases events.len(),
{
    let start = TransportPhase::Streaming;
    if events.len() > 0 {
        let head = events.drop_last();
        let last = events.last();
        lemma_streams_in_order(head);
        let before = run_phase(start, head);
        let done = run_actions(start, head);
        assert(events =~= head.push(last));
        lemma_filter_map_push(head, last, offered_frame());
        lemma_filter_map_push(head, last, received_text());
        lemma_filter_map_push(done, action_for(before, last), sent_frame());
        lemma_filter_map_push(done, action_for(before, last), delivered_text());
        assert(run_actions(start, events) == done.push(action_for(before, last)));
    }
}

} // verus!
