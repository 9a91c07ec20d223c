use std::cell::Cell;
use std::rc::Rc;

use cuemate_audio::capture::AudioCapture;
use cuemate_audio::capture::SessionState;
use cuemate_audio::channel::forward_frame;
use cuemate_audio::channel::send_outcome;
use cuemate_audio::device::AudioConfig;
use cuemate_audio::device::DeviceFormat;
use cuemate_audio::device_manager::AudioDeviceManager;
use cuemate_audio::device_manager::HostSnapshot;
use cuemate_audio::error::AudioError;
use cuemate_audio::transport::Transport;
use cuemate_audio::transport::TransportAction;
use cuemate_audio::transport::TransportEvent;
use cuemate_audio::transport::TransportExit;
use tokio::sync::mpsc::error::SendError;
use tokio::sync::mpsc::error::TryRecvError;

/// Stands for a hardware stream; counts the streams that are alive.
struct FakeStream {
    alive: Rc<Cell<usize>>,
}

impl FakeStream {
    fn open(alive: &Rc<Cell<usize>>) -> FakeStream {
        alive.set(alive.get() + 1);
        FakeStream { alive: alive.clone() }
    }
}

impl Drop for FakeStream {
    fn drop(&mut self) {
        self.alive.set(self.alive.get() - 1);
    }
}

fn host(inputs: &[&str]) -> AudioDeviceManager {
    AudioDeviceManager::new(HostSnapshot {
        inputs: Some(inputs.iter().map(|n| Some(n.to_string())).collect()),
        outputs: Some(Vec::new()),
        default_input: None,
        default_output: None,
    })
}

fn native() -> Option<DeviceFormat> {
    Some(DeviceFormat { sample_rate: 48000, channels: 2 })
}

fn capturing(alive: &Rc<Cell<usize>>) -> AudioCapture<FakeStream> {
    let mut session: AudioCapture<FakeStream> = AudioCapture::new();
    session.start_capture("Mic", &host(&["Mic"]), native()).unwrap();
    session.stream_opened(FakeStream::open(alive)).unwrap();
    session
}

#[test]
fn new_session_is_idle() {
    let session: AudioCapture<FakeStream> = AudioCapture::new();
    assert_eq!(session.state(), SessionState::Idle);
    assert!(!session.is_capturing());
    assert_eq!(session.config(), AudioConfig::default());
    assert_eq!(session.websocket_url(), None);
    assert_eq!(session.active_device(), None);
    assert_eq!(session.active_config(), None);
}

#[test]
fn default_session_is_a_new_session() {
    let session: AudioCapture<FakeStream> = AudioCapture::default();
    assert_eq!(session.state(), SessionState::Idle);
    assert!(!session.is_capturing());
    assert_eq!(session.config(), AudioConfig::default());
}

#[test]
fn settings_are_stored_for_the_next_start() {
    let mut session: AudioCapture<FakeStream> = AudioCapture::new();
    let config = AudioConfig { sample_rate: 44100, channels: 2, buffer_size: 2048 };
    session.set_audio_config(config);
    session.set_websocket_url("ws://one".to_string());
    session.set_websocket_url("ws://two".to_string());
    assert_eq!(session.config(), config);
    assert_eq!(session.websocket_url(), Some("ws://two".to_string()));
    assert_eq!(session.state(), SessionState::Idle);
}

#[test]
fn stop_on_idle_session_is_a_no_op_returning_success() {
    let mut session: AudioCapture<FakeStream> = AudioCapture::new();
    assert_eq!(session.stop_capture(), Ok(()));
    assert_eq!(session.state(), SessionState::Idle);
    assert!(!session.is_capturing());
    assert_eq!(session.stop_capture(), Ok(()));
    assert_eq!(session.state(), SessionState::Idle);
}

#[test]
fn start_of_a_missing_device_is_device_not_found() {
    let mut session: AudioCapture<FakeStream> = AudioCapture::new();
    let result = session.start_capture("Mic", &host(&[]), native());
    assert_eq!(result.err(), Some(AudioError::DeviceNotFound));
    assert_eq!(session.state(), SessionState::Idle);
    let result = session.start_capture("Mic", &host(&["mic", "Other"]), native());
    assert_eq!(result.err(), Some(AudioError::DeviceNotFound));
    let result = session.start_capture("Mic", &host(&[]), None);
    assert_eq!(result.err(), Some(AudioError::DeviceNotFound));
    assert!(!session.is_capturing());
}

#[test]
fn start_without_a_native_format_is_capture_start_failed() {
    let mut session: AudioCapture<FakeStream> = AudioCapture::new();
    let result = session.start_capture("Mic", &host(&["Mic"]), None);
    assert_eq!(result.err(), Some(AudioError::CaptureStartFailed));
    assert_eq!(session.state(), SessionState::Idle);
}

#[test]
fn start_hands_out_the_stream_request() {
    let mut session: AudioCapture<FakeStream> = AudioCapture::new();
    session.set_websocket_url("ws://localhost:8000".to_string());
    session.set_audio_config(AudioConfig { sample_rate: 8000, channels: 1, buffer_size: 256 });
    let request = session.start_capture("Mic", &host(&["Other", "Mic"]), native()).unwrap();
    assert_eq!(request.device_index, 1);
    assert_eq!(request.channels, 2);
    assert_eq!(request.source_rate, 48000);
    assert_eq!(request.sample_rate, 8000);
    assert_eq!(request.buffer_size, 256);
    assert_eq!(request.endpoint, Some("ws://localhost:8000".to_string()));
    assert_eq!(session.state(), SessionState::Starting);
    assert!(!session.is_capturing());
}

#[test]
fn start_without_endpoint_asks_for_no_transport() {
    let mut session: AudioCapture<FakeStream> = AudioCapture::new();
    let request = session.start_capture("Mic", &host(&["Mic"]), native()).unwrap();
    assert_eq!(request.endpoint, None);
    assert_eq!(request.sample_rate, 16000);
    assert_eq!(request.buffer_size, 1024);
}

#[test]
fn opened_stream_makes_the_session_capture() {
    let alive = Rc::new(Cell::new(0));
    let mut session: AudioCapture<FakeStream> = AudioCapture::new();
    session.start_capture("Mic", &host(&["Mic"]), native()).unwrap();
    assert_eq!(session.stream_opened(FakeStream::open(&alive)), Ok(()));
    assert_eq!(session.state(), SessionState::Capturing);
    assert!(session.is_capturing());
    assert_eq!(alive.get(), 1);
}

#[test]
fn failed_stream_leaves_the_session_idle() {
    let mut session: AudioCapture<FakeStream> = AudioCapture::new();
    let mut request = session.start_capture("Mic", &host(&["Mic"]), native()).unwrap();
    assert_eq!(session.stream_failed(), AudioError::CaptureStartFailed);
    assert_eq!(session.state(), SessionState::Idle);
    assert!(!session.is_capturing());
    drop(request.frames_in);
    assert_eq!(request.frames_out.try_recv(), Err(TryRecvError::Disconnected));
}

#[test]
fn stream_reports_outside_a_start_change_nothing() {
    let alive = Rc::new(Cell::new(0));
    let mut session: AudioCapture<FakeStream> = AudioCapture::new();
    assert_eq!(
        session.stream_opened(FakeStream::open(&alive)),
        Err(AudioError::CaptureStartFailed)
    );
    assert_eq!(alive.get(), 0);
    assert_eq!(session.state(), SessionState::Idle);

    let mut session = capturing(&alive);
    assert_eq!(session.stream_failed(), AudioError::CaptureStartFailed);
    assert!(session.is_capturing());
    assert_eq!(
        session.stream_opened(FakeStream::open(&alive)),
        Err(AudioError::CaptureStartFailed)
    );
    assert!(session.is_capturing());
    assert_eq!(alive.get(), 1);
}

#[test]
fn stop_releases_the_stream_and_the_channel() {
    let alive = Rc::new(Cell::new(0));
    let mut session: AudioCapture<FakeStream> = AudioCapture::new();
    let mut request = session.start_capture("Mic", &host(&["Mic"]), native()).unwrap();
    session.stream_opened(FakeStream::open(&alive)).unwrap();
    forward_frame(&request.frames_in, vec![1, 2]).unwrap();
    drop(request.frames_in);

    assert_eq!(session.stop_capture(), Ok(()));
    assert!(!session.is_capturing());
    assert_eq!(session.state(), SessionState::Idle);
    assert_eq!(session.active_device(), None);
    assert_eq!(session.active_config(), None);
    assert_eq!(alive.get(), 0);
    assert_eq!(request.frames_out.try_recv(), Ok(vec![1, 2]));
    assert_eq!(request.frames_out.try_recv(), Err(TryRecvError::Disconnected));
}

#[test]
fn start_after_stop_succeeds() {
    let alive = Rc::new(Cell::new(0));
    let mut session = capturing(&alive);
    session.stop_capture().unwrap();
    assert!(!session.is_capturing());
    assert!(session.start_capture("Mic", &host(&["Mic"]), native()).is_ok());
    assert_eq!(session.stream_opened(FakeStream::open(&alive)), Ok(()));
    assert!(session.is_capturing());
    assert_eq!(alive.get(), 1);
}

#[test]
fn start_while_capturing_stops_first() {
    let alive = Rc::new(Cell::new(0));
    let mut session = capturing(&alive);
    session.set_audio_config(AudioConfig { sample_rate: 22050, channels: 1, buffer_size: 512 });

    let request = session
        .start_capture("Line In", &host(&["Mic", "Line In"]), Some(DeviceFormat {
            sample_rate: 44100,
            channels: 1,
        }))
        .unwrap();
    assert_eq!(alive.get(), 0);
    assert_eq!(session.state(), SessionState::Starting);
    assert_eq!(request.device_index, 1);
    assert_eq!(request.sample_rate, 22050);
    assert_eq!(request.buffer_size, 512);
    assert_eq!(request.channels, 1);
    assert_eq!(request.source_rate, 44100);

    session.stream_opened(FakeStream::open(&alive)).unwrap();
    assert!(session.is_capturing());
    assert_eq!(alive.get(), 1);
    assert_eq!(session.active_device(), Some("Line In".to_string()));
    assert_eq!(
        session.active_config(),
        Some(AudioConfig { sample_rate: 22050, channels: 1, buffer_size: 512 })
    );
}

#[test]
fn start_while_capturing_ends_where_stop_then_start_ends() {
    let alive = Rc::new(Cell::new(0));
    let devices = host(&["Mic", "Line In"]);

    let mut direct = capturing(&alive);
    let first = direct.start_capture("Line In", &devices, native()).unwrap();

    let mut stepwise = capturing(&alive);
    stepwise.stop_capture().unwrap();
    let second = stepwise.start_capture("Line In", &devices, native()).unwrap();

    assert_eq!(direct.state(), stepwise.state());
    assert_eq!(direct.active_device(), stepwise.active_device());
    assert_eq!(direct.active_config(), stepwise.active_config());
    assert_eq!(first.device_index, second.device_index);
    assert_eq!(first.sample_rate, second.sample_rate);
    assert_eq!(first.channels, second.channels);
    assert_eq!(alive.get(), 0);
}

#[test]
fn failed_start_while_capturing_leaves_the_session_idle() {
    let alive = Rc::new(Cell::new(0));
    let mut session = capturing(&alive);
    let result = session.start_capture("Gone", &host(&["Mic"]), native());
    assert_eq!(result.err(), Some(AudioError::DeviceNotFound));
    assert_eq!(session.state(), SessionState::Idle);
    assert_eq!(alive.get(), 0);
}

#[test]
fn settings_do_not_touch_a_running_capture() {
    let alive = Rc::new(Cell::new(0));
    let mut session = capturing(&alive);
    session.set_audio_config(AudioConfig { sample_rate: 44100, channels: 2, buffer_size: 64 });
    session.set_websocket_url("ws://elsewhere".to_string());
    assert!(session.is_capturing());
    assert_eq!(session.state(), SessionState::Capturing);
    assert_eq!(alive.get(), 1);
    assert_eq!(session.active_device(), Some("Mic".to_string()));
    assert_eq!(session.active_config(), Some(AudioConfig::default()));
    assert_eq!(session.config().sample_rate, 44100);
}

#[test]
fn dropping_the_session_releases_the_stream() {
    let alive = Rc::new(Cell::new(0));
    let session = capturing(&alive);
    assert_eq!(alive.get(), 1);
    drop(session);
    assert_eq!(alive.get(), 0);
}

#[test]
fn write_failure_ends_the_transport_but_not_the_capture() {
    let alive = Rc::new(Cell::new(0));
    let mut session = capturing(&alive);
    let mut transport = Transport::new("ws://localhost:8000");
    transport.step(TransportEvent::Connected);

    let exit = match transport.step(TransportEvent::SendFailed) {
        TransportAction::Finish(exit) => exit,
        other => panic!("unexpected action {:?}", other),
    };
    assert!(transport.is_closed());
    assert_eq!(session.transport_closed(exit), Some(AudioError::TransportIOError));
    assert!(session.is_capturing());
    assert_eq!(alive.get(), 1);

    session.stop_capture().unwrap();
    assert!(!session.is_capturing());
    assert_eq!(alive.get(), 0);
}

#[test]
fn orderly_end_of_the_transport_reports_no_failure() {
    let alive = Rc::new(Cell::new(0));
    let mut session = capturing(&alive);
    assert_eq!(session.transport_closed(TransportExit::CaptureEnded), None);
    assert_eq!(session.transport_closed(TransportExit::RemoteClosed), None);
    assert_eq!(
        session.transport_closed(TransportExit::ConnectFailed),
        Some(AudioError::TransportConnectFailed)
    );
    assert_eq!(
        session.transport_closed(TransportExit::ReceiveFailed),
        Some(AudioError::TransportIOError)
    );
    assert!(session.is_capturing());
}

#[test]
fn frames_pass_through_the_channel_in_order() {
    let mut session: AudioCapture<FakeStream> = AudioCapture::new();
    let mut request = session.start_capture("Mic", &host(&["Mic"]), native()).unwrap();
    assert_eq!(forward_frame(&request.frames_in, vec![1, 2, 3]), Ok(()));
    assert_eq!(forward_frame(&request.frames_in, Vec::new()), Ok(()));
    assert_eq!(forward_frame(&request.frames_in, vec![4]), Ok(()));
    assert_eq!(request.frames_out.try_recv(), Ok(vec![1, 2, 3]));
    assert_eq!(request.frames_out.try_recv(), Ok(Vec::new()));
    assert_eq!(request.frames_out.try_recv(), Ok(vec![4]));
    assert_eq!(request.frames_out.try_recv(), Err(TryRecvError::Empty));
}

#[test]
fn frame_for_a_gone_consumer_is_channel_closed() {
    let mut session: AudioCapture<FakeStream> = AudioCapture::new();
    let request = session.start_capture("Mic", &host(&["Mic"]), native()).unwrap();
    drop(request.frames_out);
    assert_eq!(forward_frame(&request.frames_in, vec![1]), Err(AudioError::ChannelClosed));
    assert_eq!(forward_frame(&request.frames_in, vec![2]), Err(AudioError::ChannelClosed));
    assert_eq!(session.state(), SessionState::Starting);
}

#[test]
fn send_outcome_maps_the_channel_error() {
    assert_eq!(send_outcome(Ok(())), Ok(()));
    assert_eq!(send_outcome(Err(SendError(vec![1, 2]))), Err(AudioError::ChannelClosed));
}

#[test]
fn each_start_gets_a_fresh_channel() {
    let mut session: AudioCapture<FakeStream> = AudioCapture::new();
    let mut first = session.start_capture("Mic", &host(&["Mic"]), native()).unwrap();
    let mut second = session.start_capture("Mic", &host(&["Mic"]), native()).unwrap();
    forward_frame(&second.frames_in, vec![7]).unwrap();
    assert_eq!(second.frames_out.try_recv(), Ok(vec![7]));
    assert_eq!(first.frames_out.try_recv(), Err(TryRecvError::Empty));
    drop(first.frames_in);
    assert_eq!(first.frames_out.try_recv(), Err(TryRecvError::Disconnected));
}

#[test]
fn error_messages() {
    assert_eq!(AudioError::DeviceNotFound.message(), "input device not found");
    assert_eq!(AudioError::CaptureStartFailed.message(), "failed to open the capture stream");
    assert_eq!(
        AudioError::TransportConnectFailed.message(),
        "failed to connect to the recognition endpoint"
    );
    assert_eq!(AudioError::TransportIOError.message(), "streaming transport failed");
    assert_eq!(AudioError::ChannelClosed.message(), "frame channel closed");
}
