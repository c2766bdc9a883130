//! Errors of the library.

use vstd::prelude::*;

verus! {

/// What is wrong with a protocol data unit that came from the module.
#[derive(Debug, Clone, Copy, PartialEq, Eq, Structural)]
pub enum ProtocolError {
    /// A transport frame shorter than its fixed header.
    FrameTooShort,
    /// A transport frame whose connection id names no transport connection.
    InvalidConnection(u8),
    /// A transport frame whose length field is malformed or runs past its end.
    InvalidLength,
    /// A transport tag that the host does not take.
    InvalidTag(u8),
    /// A session message shorter than its header.
    SpduTooShort,
    /// A session message whose declared size does not fit its tag.
    InvalidSpduSize(u8),
    /// A session tag that the host does not take.
    InvalidSpduTag(u8),
}

/// Why a frontend refuses a property.
#[derive(Debug, Clone, Copy, PartialEq, Eq, Structural)]
pub enum PropertyError {
    /// The frequency is out of the frontend's range.
    FrequencyOutOfRange,
    /// The symbol rate is out of the frontend's range.
    SymbolRateOutOfRange,
    /// The frontend cannot detect the spectral inversion.
    NoInversionAuto,
    /// The frontend cannot detect the transmission mode.
    NoTransmissionModeAuto,
    /// The frontend cannot detect the guard interval.
    NoGuardIntervalAuto,
    /// The frontend cannot detect the hierarchy.
    NoHierarchyAuto,
    /// The frontend cannot filter multiple streams.
    NoMultistream,
}

/// Errors of the conditional access stack and of frontend tuning.
#[derive(Debug, Clone, Copy, PartialEq, Eq, Structural)]
pub enum Error {
    /// A transport payload of 2048 bytes or more.
    PayloadTooLarge,
    /// A malformed message from the module; it concerns its slot only.
    Protocol(ProtocolError),
    /// The requested slot is not among those the device reports.
    SlotNotFound,
    /// The slot is not a link layer Common Interface.
    IncompatibleInterface,
    /// No resource with this id is registered with the host.
    UnsupportedResource(u32),
    /// Every session id is taken by an open session.
    SessionsExhausted,
    /// No open session has this id (or none in the state the message needs).
    UnknownSession(u16),
    /// No band of the LNB holds the transponder frequency.
    FrequencyOutOfBand,
    /// The frontend cannot tune these parameters.
    UnsupportedParameters,
    /// The frontend refuses a property.
    InvalidProperty(PropertyError),
}

} // verus!
