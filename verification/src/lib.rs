//! A data-centric publish/subscribe middleware core in the style of DDS over
//! the RTPS wire protocol: identifier and sequence-number types, history
//! caches, reader/writer behaviours, QoS compatibility rules, the message
//! codec and the participant discovery state.

pub mod codec;
pub mod data_reader;
pub mod data_writer;
pub mod discovery;
pub mod error;
pub mod history_cache;
pub mod messages;
pub mod participant;
pub mod publisher;
pub mod qos;
pub mod reader;
pub mod sequence_number_set;
pub mod status;
pub mod subscriber;
pub mod type_support;
pub mod types;
pub mod writer;
