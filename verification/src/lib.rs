//! Per-session dual-channel bridge for a real-time voice-ordering gateway.
//!
//! A kiosk device opens two persistent connections (binary audio and text
//! control) that are correlated into one logical session and bridged to a
//! single streaming speech-agent session.  This crate holds the verified
//! core: the audio framing codec, the session lifecycle state machine, the
//! function-call router, the session registry and the connection-admission
//! rules.  Transport, HTTP and the backend clients live outside the library
//! and drive it through the functions defined here.

pub mod api;
pub mod codec;
pub mod control;
pub mod persistence;
pub mod qu;
pub mod query;
pub mod registry;
pub mod router;
pub mod session;
