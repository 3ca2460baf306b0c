//! The transaction and block propagation core of a peer-to-peer node: it
//! turns a freshly received or locally produced transaction or block into a
//! deduplicated, validated mempool update and a best-effort broadcast to the
//! connected peers, excluding the message's origin and the node itself.
//!
//! Decoding, consensus validation and the network writes themselves belong to
//! the surrounding node; this crate holds every decision between them.

pub mod fanout;
pub mod laws;
pub mod mempool;
pub mod propagator;
pub mod types;

pub use fanout::FanOut;
pub use mempool::Mempool;
pub use propagator::{AdmitOutcome, Phase, TxPropagation};
pub use types::{
    Address, DecodedTransaction, MempoolEntry, MessageKind, OutboundMessage, PropagationError,
    VerifyOutcome,
};
