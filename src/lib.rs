//! An event adapter over an IoT hub device client.
//!
//! The native transport reports everything through callbacks that fire
//! during its work pump. This library holds the logic around those
//! callbacks: the codes the transport speaks, the message model, the
//! callback slots of a client handle, the event queue that the callbacks
//! fill, the connection state machine with its reconnection backoff, and
//! the thermometer device's cloud logic built on top of them.
pub mod azureiot;
pub mod backoff;
pub mod client;
pub mod client_ll;
pub mod cloud;
pub mod codes;
pub mod connection;
pub mod datetime;
pub mod events;
pub mod message;
pub mod provisioning;
pub mod security;
