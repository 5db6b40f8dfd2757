//! Client side of a request/response protocol with out-of-band events, carried
//! over one ordered, message-preserving channel, and a few tools of the same
//! system.
//!
//! The crate holds logic and no I/O: every operation takes what was read, from
//! a channel or from a file, and returns what is to be written, as plain
//! values.
//!
//! - [`client`] is the client itself: the registry of outstanding calls, the
//!   queue of events, the epitaph, the routine that routes what was read, and
//!   the handles of calls and of the stream of events. [`client::sync`] is its
//!   synchronous sibling, and [`client::laws`] holds what is proved of whole
//!   runs.
//! - [`txid`], [`interest`], [`registry`], [`encoding`], [`status`] and
//!   [`error`] are what the client is made of.
//! - [`stream_link`] frames packets for a link over a byte stream.
//! - [`logger`] decides where the files of a target's logs begin and end, and
//!   which are removed.
//! - [`reference`] checks a component manifest against the manifest of its
//!   package.
//! - [`diagnostics`] forwards the reports of a time source to two sinks.
//! - [`setui`] decides what requests to two settings come to.
//! - [`args`] holds the arguments of some command-line tools.

pub mod args;
pub mod client;
pub mod diagnostics;
pub mod encoding;
pub mod error;
pub mod interest;
pub mod logger;
pub mod reference;
pub mod registry;
pub mod setui;
pub mod status;
pub mod stream_link;
pub mod txid;
