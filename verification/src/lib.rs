//! Live audio capture and streaming.
//!
//! The crate holds the rules of a pipeline that samples audio from an input
//! device, converts it to mono 16-bit PCM and streams it to a speech
//! recognition endpoint:
//!
//! - [`device_manager`]: the device catalogue over one snapshot of the host;
//! - [`convert`]: resampling, downmixing and quantising of sample buffers;
//! - [`capture`]: the lifecycle of the capture session;
//! - [`channel`]: the frame channel between hardware callback and transport;
//! - [`transport`]: the state machine of the streaming connection.
//!
//! Devices, sockets and floating-point arithmetic stay with the caller: the
//! crate takes what the caller observed as plain values and answers with
//! what to do next.

pub mod capture;
pub mod channel;
pub mod convert;
pub mod device;
pub mod device_manager;
pub mod error;
pub mod panel_utils;
pub mod platform;
pub mod text;
pub mod transport;
pub mod virtual_driver;
