//! The virtual network: its connections and the messages that drive them.
pub mod calls;
pub mod channel;
pub mod laws;
pub mod net;
pub mod stack;
pub mod virt;
