//! Core of a browser wallet-connection UI: a verified connection state
//! machine. The machine owns the connection status, the chain identifier
//! and the wallet address, and is driven by events (user connect intent,
//! provider responses, account- and chain-change notifications) that the
//! unverified UI shell delivers to it.

pub mod events;
pub mod laws;
pub mod machine;
pub mod state;
