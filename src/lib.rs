//! Overclocking status over model-specific registers: the register
//! constants and byte layout, and the overclocking mailbox protocol.
pub mod msr;
pub mod oc_mbox;
