//! A pluggable media-decoding core: a registry of codec descriptors paired
//! with a uniform pull-based decoding protocol, so that a host can decode
//! packets from many codecs through one interface.

pub mod common;
pub mod data;
pub mod decoder;
pub mod dummy;
pub mod error;
pub mod filter;
