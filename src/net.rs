//! Values of the network device.

use vstd::prelude::*;

verus! {

/// Multi Protocol Encapsulation (MPE).
pub const DVB_NET_FEEDTYPE_MPE: u8 = 0;
/// Ultra Lightweight Encapsulation (ULE).
pub const DVB_NET_FEEDTYPE_ULE: u8 = 1;

/// A DVB network interface: decapsulates IP packets from the transport
/// stream.
#[derive(Debug, Clone, Copy, PartialEq, Eq, Structural, Default)]
pub struct DvbNetIf {
    /// PID of the stream that carries the data.
    pub pid: u16,
    /// Number of the interface.
    pub if_num: u16,
    /// Encapsulation of the feed: `DVB_NET_FEEDTYPE_*`.
    pub feedtype: u8,
}

} // verus!
