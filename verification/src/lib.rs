//! Control and data plane of a speech-synthesis channel: a state machine for
//! speak/stop/pause/resume requests, an audio source that hands one frame (or
//! silence) to a real-time pull path on every tick, and a serialized mailbox
//! that linearizes control-plane messages onto one worker.
//!
//! Three timing domains meet here and none may block another: control
//! requests are serialized through the mailbox onto one worker; each
//! synthesis job runs on its own execution context and interacts only
//! through a one-shot result channel with a non-blocking poll; and the pull
//! path returns within every tick. A [`channel::Channel`] is owned by one
//! holder; a host that runs the worker and the pull path on different
//! threads must guard the channel with a lock of its own.

pub mod channel;
pub mod delivery;
pub mod engine;
pub mod mailbox;
pub mod messages;
pub mod source;
