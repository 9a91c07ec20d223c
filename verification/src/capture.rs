//! Capture session: the lifecycle of one audio capture, from the request to
//! start until the hardware stream and the frame channel are released.
//!
//! The session decides; the caller performs.  `start_capture` resolves the
//! device and hands out what is needed to open the hardware stream, the
//! caller opens it and reports the outcome with `stream_opened` or
//! `stream_failed`.  The session owns the stream handle and the sending half
//! of the frame channel and releases both in `stop_capture`.

use vstd::prelude::*;
use tokio::sync::mpsc::UnboundedReceiver;
use tokio::sync::mpsc::UnboundedSender;
use crate::device::AudioConfig;
use crate::device::DeviceFormat;
use crate::device_manager::AudioDeviceManager;
use crate::device_manager::is_first_named;
use crate::device_manager::name_view;
use crate::device_manager::none_named;
use crate::error::AudioError;
use crate::transport::ActionView;
use crate::transport::EventView;
use crate::transport::TransportExit;
use crate::transport::TransportPhase;
use crate::transport::action_for;
use crate::transport::next_phase;

verus! {

/// Lifecycle state of a capture session.
#[derive(Clone, Copy, Debug, PartialEq, Eq, Structural)]
pub enum SessionState {
    /// No capture; the first and the last state.
    Idle,
    /// A start was accepted and the hardware stream is being opened.
    Starting,
    /// The hardware stream runs and feeds the frame channel.
    Capturing,
    /// The handles are being released.  The session passes through this
    /// state inside `stop_capture` and is never left in it.
    Stopping,
}

/// What a running or starting capture was started with.
pub struct ActiveCapture {
    /// Name of the input device.
    pub device: String,
    /// The configuration read at start; later changes of the session's
    /// configuration do not reach it.
    pub config: AudioConfig,
}

/// Mathematical value of an [`ActiveCapture`].
pub struct ActiveView {
    pub device: Seq<char>,
    pub config: AudioConfig,
}

/// Mathematical value of a capture session.
pub struct SessionView {
    pub state: SessionState,
    /// The session holds a hardware stream handle.
    pub stream_live: bool,
    /// The session holds the sending half of a frame channel.
    pub channel_live: bool,
    /// Address of the recognition endpoint for the next start, if set.
    pub endpoint: Option<Seq<char>>,
    /// Configuration for the next start.
    pub config: AudioConfig,
    /// What the current capture was started with.
    pub active: Option<ActiveView>,
}

impl SessionView {
    /// The invariants of a session at rest:
    /// a stream handle exists exactly while capturing; the sending half of
    /// the frame channel exists exactly from an accepted start until the
    /// stop, so never without a stream that runs or is being opened; and the
    /// parameters of the capture are held exactly as long.
    pub open spec fn wf(self) -> bool {
        &&& self.state != SessionState::Stopping
        &&& self.stream_live <==> self.state == SessionState::Capturing
        &&& self.channel_live <==> (self.state == SessionState::Capturing || self.state
            == SessionState::Starting)
        &&& self.active is Some <==> self.channel_live
    }
}

/// The session after a stop: idle, with no handle; endpoint and configuration
/// stay.
pub open spec fn after_stop(v: SessionView) -> SessionView {
    SessionView {
        state: SessionState::Idle,
        stream_live: false,
        channel_live: false,
        endpoint: v.endpoint,
        config: v.config,
        active: None,
    }
}

/// The error of a start request, if it has one: the device is not among the
/// inputs, or its native format could not be read.
pub open spec fn start_error(
    inputs: Seq<Option<Seq<char>>>,
    device: Seq<char>,
    native: Option<DeviceFormat>,
) -> Option<AudioError> {
    if none_named(inputs, device) {
        Some(AudioError::DeviceNotFound)
    } else if native is None {
        Some(AudioError::CaptureStartFailed)
    } else {
        None
    }
}

/// The session after a start request: whatever ran before is stopped first;
/// then the session is starting with a fresh frame channel, or idle where the
/// request fails.
pub open spec fn after_start(
    v: SessionView,
    inputs: Seq<Option<Seq<char>>>,
    device: Seq<char>,
    native: Option<DeviceFormat>,
) -> SessionView {
    if start_error(inputs, device, native) is Some {
        after_stop(v)
    } else {
        SessionView {
            state: SessionState::Starting,
            stream_live: false,
            channel_live: true,
            endpoint: v.endpoint,
            config: v.config,
            active: Some(ActiveView { device, config: v.config }),
        }
    }
}

/// The session after the caller reported that the stream is open: capturing
/// if it was starting, otherwise unchanged.
pub open spec fn after_stream_opened(v: SessionView) -> SessionView {
    if v.state == SessionState::Starting {
        SessionView { state: SessionState::Capturing, stream_live: true, ..v }
    } else {
        v
    }
}

/// The session after the caller reported that the stream could not be
/// opened: idle if it was starting, otherwise unchanged.
pub open spec fn after_stream_failed(v: SessionView) -> SessionView {
    if v.state == SessionState::Starting {
        after_stop(v)
    } else {
        v
    }
}

/// The session after the streaming transport ended: as before.  The end of
/// the transport, by failure or not, neither stops the capture nor restarts
/// the transport.
pub open spec fn after_transport_closed(v: SessionView, exit: TransportExit) -> SessionView {
    v
}

/// A start is a stop followed by a start, whatever the state: starting while
/// capturing leaves the session where stop and then start leave it.
pub proof fn lemma_start_stops_first(
    v: SessionView,
    inputs: Seq<Option<Seq<char>>>,
    device: Seq<char>,
    native: Option<DeviceFormat>,
)
    ensures
        after_start(v, inputs, device, native) == after_start(
            after_stop(v),
            inputs,
            device,
            native,
        ),
        after_stop(after_stop(v)) == after_stop(v),
{
}

/// A start that is accepted and whose stream opens ends in a capture of the
/// new device with the configuration of the moment, whatever ran before.
pub proof fn lemma_start_captures_anew(
    v: SessionView,
    inputs: Seq<Option<Seq<char>>>,
    device: Seq<char>,
    native: Option<DeviceFormat>,
)
    requires
        start_error(inputs, device, native) is None,
    ensures
        after_stream_opened(after_start(v, inputs, device, native)).wf(),
        after_stream_opened(after_start(v, inputs, device, native)).state
            == SessionState::Capturing,
        after_stream_opened(after_start(v, inputs, device, native)).active == Some(
            ActiveView { device, config: v.config },
        ),
{
}

/// Every step keeps the invariants of the session.
pub proof fn lemma_steps_keep_invariants(
    v: SessionView,
    inputs: Seq<Option<Seq<char>>>,
    device: Seq<char>,
    native: Option<DeviceFormat>,
    exit: TransportExit,
)
    requires
        v.wf(),
    ensures
        after_stop(v).wf(),
        after_start(v, inputs, device, native).wf(),
        after_stream_opened(v).wf(),
        after_stream_failed(v).wf(),
        after_transport_closed(v, exit).wf(),
{
}

/// Stopping an idle session changes nothing.
pub proof fn lemma_stop_idle_changes_nothing(v: SessionView)
    requires
        v.wf(),
        v.state == SessionState::Idle,
    ensures
        after_stop(v) == v,
{
}

/// After a stop the session is not capturing and holds no handle, and a
/// following start is judged by the device and its format alone: it is
/// accepted exactly when the device exists and its format is known, and the
/// session then captures as soon as the stream is open.
pub proof fn lemma_start_after_stop(
    v: SessionView,
    inputs: Seq<Option<Seq<char>>>,
    device: Seq<char>,
    native: Option<DeviceFormat>,
)
    ensures
        after_stop(v).state == SessionState::Idle,
        !after_stop(v).stream_live,
        !after_stop(v).channel_live,
        start_error(inputs, device, native) is None ==> after_start(
            after_stop(v),
            inputs,
            device,
            native,
        ).state == SessionState::Starting && after_stream_opened(
            after_start(after_stop(v), inputs, device, native),
        ).state == SessionState::Capturing,
        start_error(inputs, device, native) is Some ==> after_start(
            after_stop(v),
            inputs,
            device,
            native,
        ).state == SessionState::Idle,
{
}

/// A failed write ends the transport and nothing else: the transport closes
/// with `SendFailed`, which is reported as `TransportIOError`, and a
/// capturing session goes on capturing until it is stopped.
pub proof fn lemma_write_failure_spares_capture(v: SessionView)
    requires
        v.wf(),
        v.state == SessionState::Capturing,
    ensures
        next_phase(TransportPhase::Streaming, EventView::SendFailed) == TransportPhase::Closed(
            TransportExit::SendFailed,
        ),
        action_for(TransportPhase::Streaming, EventView::SendFailed) == ActionView::Finish(
            TransportExit::SendFailed,
        ),
        TransportExit::SendFailed.failure() == Some(AudioError::TransportIOError),
        after_transport_closed(v, TransportExit::SendFailed).state == SessionState::Capturing,
        after_transport_closed(v, TransportExit::SendFailed).stream_live,
        after_stop(after_transport_closed(v, TransportExit::SendFailed)).state
            == SessionState::Idle,
{
}

/// What the caller needs to open the hardware stream and to wire it to the
/// streaming transport.
pub struct StreamRequest {
    /// Position of the device among the inputs of the snapshot.
    pub device_index: usize,
    /// Channel count to open the stream with: the device's own.
    pub channels: u16,
    /// Sample rate to request of the hardware, and the rate that the
    /// converter brings every buffer to: the configured one.
    pub sample_rate: u32,
    /// Buffer size to request, in frames: the configured one.
    pub buffer_size: u32,
    /// The device's native rate, from which the converter resamples.
    pub source_rate: u32,
    /// Address of the recognition endpoint, if one is set.  Without one no
    /// transport is started.
    pub endpoint: Option<String>,
    /// Sending half of the frame channel, for the hardware callback.
    pub frames_in: UnboundedSender<Vec<u8>>,
    /// Receiving half of the frame channel, for the streaming transport.
    pub frames_out: UnboundedReceiver<Vec<u8>>,
}

impl StreamRequest {
    /// The request answers a start of `device` over `inputs` with the native
    /// format `native`, made with the configuration and endpoint of `v`.
    pub open spec fn answers(
        &self,
        v: SessionView,
        inputs: Seq<Option<Seq<char>>>,
        device: Seq<char>,
        native: DeviceFormat,
    ) -> bool {
        &&& is_first_named(inputs, device, self.device_index as int)
        &&& self.channels == native.channels
        &&& self.source_rate == native.sample_rate
        &&& self.sample_rate == v.config.sample_rate
        &&& self.buffer_size == v.config.buffer_size
        &&& name_view(self.endpoint) == v.endpoint
    }
}

/// The capture session.  `S` is the type of the hardware stream handle.
///
/// One session serves any number of captures, one after the other.  Calls on
/// it are expected to be serialised by the caller.
pub struct AudioCapture<S> {
    state: SessionState,
    stream: Option<S>,
    audio_tx: Option<UnboundedSender<Vec<u8>>>,
    websocket_url: Option<String>,
    config: AudioConfig,
    active: Option<ActiveCapture>,
}

impl<S> View for AudioCapture<S> {
    type V = SessionView;

    closed spec fn view(&self) -> SessionView {
        SessionView {
            state: self.state,
            stream_live: self.stream is Some,
            channel_live: self.audio_tx is Some,
            endpoint: name_view(self.websocket_url),
            config: self.config,
            active: match self.active {
                Some(a) => Some(ActiveView { device: a.device@, config: a.config }),
                None => None,
            },
        }
    }
}

impl<S> AudioCapture<S> {
    /// The session holds its invariants.
    pub open spec fn wf(&self) -> bool {
        self@.wf()
    }

    /// An idle session with the default configuration and no endpoint.
    pub fn new() -> (session: AudioCapture<S>)
        ensures
            session.wf(),
            session@ == (SessionView {
                state: SessionState::Idle,
                stream_live: false,
                channel_live: false,
                endpoint: None,
                config: AudioConfig { sample_rate: 16000, channels: 1, buffer_size: 1024 },
                active: None,
            }),
    {
        AudioCapture {
            state: SessionState::Idle,
            stream: None,
            audio_tx: None,
            websocket_url: None,
            config: AudioConfig::default(),
            active: None,
        }
    }

    /// Sets the address of the recognition endpoint for the next start.
    /// Allowed in any state; a running capture is not touched.
    pub fn set_websocket_url(&mut self, url: String)
        requires
            old(self).wf(),
        ensures
            final(self).wf(),
            final(self)@ == (SessionView { endpoint: Some(url@), ..old(self)@ }),
    {
        self.websocket_url = Some(url);
    }

    /// Sets the configuration for the next start.  Allowed in any state; a
    /// running capture keeps the configuration it was started with.
    pub fn set_audio_config(&mut self, config: AudioConfig)
        requires
            old(self).wf(),
        ensures
            final(self).wf(),
            final(self)@ == (SessionView { config, ..old(self)@ }),
    {
        self.config = config;
    }

    /// Requests a capture from the input device named `device_name`.
    ///
    /// Whatever ran before is stopped first, so a start while capturing is a
    /// stop followed by a start.  `native` is the native format of the device
    /// that `devices.get_input_device_by_name(device_name)` selects, `None`
    /// where the host could not tell it; it is not looked at when no device
    /// is selected.
    ///
    /// On success the session is starting, holds the sending half of a fresh
    /// frame channel, and the caller opens the stream as the request says and
    /// reports back.  Fails with `DeviceNotFound` exactly when no input has
    /// that name and with `CaptureStartFailed` exactly when one has but its
    /// format is unknown; the session is then idle.
    pub fn start_capture(
        &mut self,
        device_name: &str,
        devices: &AudioDeviceManager,
        native: Option<DeviceFormat>,
    ) -> (result: Result<StreamRequest, AudioError>)
        requires
            old(self).wf(),
        ensures
            final(self).wf(),
            final(self)@ == after_start(old(self)@, devices@.inputs, device_name@, native),
            match result {
                Ok(request) => start_error(devices@.inputs, device_name@, native) is None
                    && request.answers(old(self)@, devices@.inputs, device_name@, native->0),
                Err(e) => start_error(devices@.inputs, device_name@, native) == Some(e),
            },
    {
        let _ = self.stop_capture();
        let device_index: usize = match devices.get_input_device_by_name(device_name) {
            Ok(at) => at,
            Err(e) => {
                return Err(e);
            },
        };
        let format: DeviceFormat = match native {
            Some(format) => format,
            None => {
                return Err(AudioError::CaptureStartFailed);
            },
        };
        let (frames_in, frames_out) = tokio::sync::mpsc::unbounded_channel::<Vec<u8>>();
        let request = StreamRequest {
            device_index,
            channels: format.channels,
            sample_rate: self.config.sample_rate,
            buffer_size: self.config.buffer_size,
            source_rate: format.sample_rate,
            endpoint: self.websocket_url.clone(),
            frames_in: frames_in.clone(),
            frames_out,
        };
        self.audio_tx = Some(frames_in);
        self.active = Some(
            ActiveCapture { device: device_name.to_owned(), config: self.config },
        );
        self.state = SessionState::Starting;
        Ok(request)
    }

    /// Reports that the hardware stream is open and running, and hands the
    /// session its handle.  A starting session is capturing afterwards.  A
    /// session that is not starting (it was stopped meanwhile) releases the
    /// handle at once, stays as it is and answers `CaptureStartFailed`.
    pub fn stream_opened(&mut self, stream: S) -> (result: Result<(), AudioError>)
        requires
            old(self).wf(),
        ensures
            final(self).wf(),
            final(self)@ == after_stream_opened(old(self)@),
            old(self)@.state == SessionState::Starting ==> result == Ok::<(), AudioError>(()),
            old(self)@.state != SessionState::Starting ==> result == Err::<(), AudioError>(
                AudioError::CaptureStartFailed,
            ),
    {
        match self.state {
            SessionState::Starting => {
                self.stream = Some(stream);
                self.state = SessionState::Capturing;
                Ok(())
            },
            _ => Err(AudioError::CaptureStartFailed),
        }
    }

    /// Reports that the hardware stream could not be opened.  A starting
    /// session releases the frame channel and is idle afterwards; any other
    /// session stays as it is.  Returns the error to surface.
    pub fn stream_failed(&mut self) -> (error: AudioError)
        requires
            old(self).wf(),
        ensures
            final(self).wf(),
            final(self)@ == after_stream_failed(old(self)@),
            error == AudioError::CaptureStartFailed,
    {
        match self.state {
            SessionState::Starting => {
                let _ = self.stop_capture();
            },
            _ => {},
        }
        AudioError::CaptureStartFailed
    }

    /// Stops the capture: releases the hardware stream handle, which halts
    /// the callback, and drops the sending half of the frame channel, which
    /// lets the transport drain and end.  Allowed in any state and always
    /// successful; on an idle session nothing changes.
    pub fn stop_capture(&mut self) -> (result: Result<(), AudioError>)
        requires
            old(self).wf(),
        ensures
            final(self).wf(),
            final(self)@ == after_stop(old(self)@),
            old(self)@.state == SessionState::Idle ==> final(self)@ == old(self)@,
            result == Ok::<(), AudioError>(()),
    {
        self.state = SessionState::Stopping;
        self.stream = None;
        self.audio_tx = None;
        self.active = None;
        self.state = SessionState::Idle;
        Ok(())
    }

    /// Whether the session is capturing: it holds a running stream.
    pub fn is_capturing(&self) -> (r: bool)
        ensures
            r == self@.stream_live,
            self.wf() ==> r == (self@.state == SessionState::Capturing),
    {
        self.stream.is_some()
    }

    /// The configuration for the next start.
    pub fn config(&self) -> (config: AudioConfig)
        ensures
            config == self@.config,
    {
        self.config
    }

    /// The address of the recognition endpoint for the next start, if set.
    pub fn websocket_url(&self) -> (url: Option<String>)
        ensures
            name_view(url) == self@.endpoint,
    {
        self.websocket_url.clone()
    }

    /// The device of the current capture, if the session is starting or
    /// capturing.
    pub fn active_device(&self) -> (device: Option<String>)
        ensures
            match self@.active {
                Some(active) => name_view(device) == Some(active.device),
                None => device is None,
            },
    {
        match &self.active {
            Some(active) => Some(active.device.clone()),
            None => None,
        }
    }

    /// The configuration that the current capture was started with, if the
    /// session is starting or capturing.
    pub fn active_config(&self) -> (config: Option<AudioConfig>)
        ensures
            match self@.active {
                Some(active) => config == Some(active.config),
                None => config is None,
            },
    {
        match &self.active {
            Some(active) => Some(active.config),
            None => None,
        }
    }

    /// Lifecycle state of the session.
    pub fn state(&self) -> (state: SessionState)
        ensures
            state == self@.state,
    {
        self.state
    }

    /// Takes note that the streaming transport has ended.  The session does
    /// not react: a capture goes on until `stop_capture`, and a new transport
    /// comes only with a new start.  Returns the failure to report, if the
    /// transport ended by one.
    pub fn transport_closed(&mut self, exit: TransportExit) -> (report: Option<AudioError>)
        ensures
            *final(self) == *old(self),
            final(self)@ == after_transport_closed(old(self)@, exit),
            report == exit.failure(),
    {
        exit.to_failure()
    }
}

impl<S> Default for AudioCapture<S> {
    /// An idle session, as `new` makes it.
    fn default() -> (session: AudioCapture<S>)
        ensures
            session.wf(),
            session@.state == SessionState::Idle,
    {
        AudioCapture::new()
    }
}

} // verus!
