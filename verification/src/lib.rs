//! Verified core of the SWIFT intent framework's network and 5G-core
//! orchestration: the commands that build the Open vSwitch topology, the
//! container specifications of the free5GC deployment, the ONOS host-intent
//! plans and the answers of the Rasa action endpoints.

pub mod text;
pub mod mac;
pub mod commands;
pub mod topology;
pub mod containers;
pub mod intents;
pub mod rasa;
pub mod subscriber;
pub mod deployment;
pub mod options;
