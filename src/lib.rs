//! Driver logic for an NFC reader module on a serial link: the frame codec,
//! byte-level read retries, request/response matching, the dispatcher's jobs
//! for polling, reading, writing and the buzzer, and the caller's session.
pub mod card;
pub mod codec;
pub mod dispatcher;
pub mod exchange;
pub mod session;
pub mod transport;
