//! Verified core of a PHP extension that drives the NTgCalls voice/video call
//! engine: the event wire format, the outcome rules of asynchronous engine
//! commands, the data model of the engine's records, and log filtering.
#![allow(non_camel_case_types)]

pub mod call;
pub mod client;
pub mod enums;
pub mod logging;
pub mod packet;
pub mod records;
pub mod text;
