//! Interoperability-test support library: a transport matrix resolver that
//! validates and describes a (transport, security, muxer) protocol stack for a
//! network endpoint, and a rendezvous client over a shared blocking-list
//! broker through which two test processes exchange dial addresses.

use vstd::prelude::*;

mod broker;
mod error;
mod rendezvous;
mod resolve;
mod stack;
mod wire;

pub use broker::Broker;
pub use broker::law_fifo_order;
pub use broker::law_push_then_pop;
pub use error::Error;
pub use rendezvous::Backend;
pub use rendezvous::PopCommand;
pub use rendezvous::PushCommand;
pub use rendezvous::finish_block_pop;
pub use rendezvous::finish_push;
pub use rendezvous::plan_block_pop;
pub use rendezvous::plan_push;
pub use wire::blpop_request_body;
pub use wire::spec_blpop_request_body;
pub use wire::spec_dec_digits;
pub use wire::spec_digit_char;
pub use wire::spec_escape;
pub use wire::spec_escape_char;
pub use wire::spec_hex_char;
pub use resolve::IDLE_CONNECTION_TIMEOUT_SECS;
pub use resolve::Resolution;
pub use resolve::dial_template;
pub use resolve::law_dial_addr_matches_template;
pub use resolve::resolve;
pub use resolve::spec_addr_suffix;
pub use resolve::spec_dial_addr;
pub use resolve::spec_dial_template;
pub use resolve::spec_substitute_ip;
pub use stack::Env;
pub use stack::Muxer;
pub use stack::SecProtocol;
pub use stack::Transport;
pub use stack::spec_supported;
pub use stack::supported;

verus! {

} // verus!
