//! A network-attached log sink for field devices: settings validation,
//! datagram decoding, and the size-triggered, count-retained rotating writer.

pub mod settings;
pub mod packet;
pub mod writer;
pub mod layout;
