//! Core of a two-peer relay server: the message type and its wire codec,
//! a bounded fan-out bus with per-subscriber cursors, the per-peer session
//! state machine, and the observer that detects full shutdown.
//!
//! Everything here is plain data and decisions; sockets, task spawning and
//! the operator prompt live outside the library and drive it through these
//! types.

pub mod bus;
pub mod codec;
pub mod message;
pub mod observer;
pub mod session;

pub use bus::Bus;
pub use bus::RecvOutcome;
pub use bus::Subscription;
pub use codec::CodecError;
pub use codec::FRAME_LEN;
pub use message::CAPACITY;
pub use message::Message;
pub use message::PEER_COUNT;
pub use observer::Observer;
pub use observer::ObserverPoll;
pub use observer::ObserverState;
pub use session::Session;
pub use session::SessionPoll;
pub use session::SessionState;
