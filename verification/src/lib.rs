//! The call logic of a SIP back-to-back user agent: what it reads out of SIP
//! and SDP, the calls it keeps, the requests, answers and events it produces,
//! and when it retries or gives up. It does no I/O of its own; the process
//! around it carries out what it decides.
pub mod config;
pub mod engine;
pub mod events;
pub mod handler;
pub mod retry;
pub mod sdp;
pub mod service;
pub mod sip;
pub mod store;
pub mod text;
