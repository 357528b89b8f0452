//! Verified core of a live packet-capture monitor: it reassembles textual
//! hex-dump output into frames, decodes each frame's payload into printable
//! ASCII, and scans the accumulated hex for configured byte signatures.

pub mod decode;
pub mod dumpline;
pub mod gate;
pub mod lifecycle;
pub mod reader;
pub mod reassemble;
pub mod scan;
pub mod text;
