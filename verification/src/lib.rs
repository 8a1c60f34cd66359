//! Verified core of the Saturn bridge: the TCI text and binary protocol, the
//! client registry and split-session pairing, the outbound and inbound
//! schedulers, the transmit state machine and the XDMA register and FIFO rules.
use vstd::prelude::*;

pub mod audio;
pub mod backend;
pub mod codec;
pub mod commands;
pub mod duc;
pub mod frontend;
pub mod incoming;
pub mod laws;
pub mod mailbox;
pub mod outbound;
pub mod parser;
pub mod protocol;
pub mod publish;
pub mod registry;
pub mod session;
pub mod settings;
pub mod snapshot;
pub mod text;
pub mod tx_audio;
pub mod tx_control;
pub mod xdma;

verus! {

} // verus!
