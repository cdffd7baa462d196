//! Failures of the management core and how they reach a caller.

use vstd::prelude::*;

verus! {

/// Why an operation of the core did not do what was asked.
#[derive(Debug, PartialEq, Eq)]
pub enum BleError {
    /// A textual UUID did not follow the UUID grammar; carries the text.
    InvalidUuid(String),
    /// The session has no worker context or no adapter capability.
    NotInitialized,
    /// The adapter capability exposes no physical adapter.
    NoAdapterFound,
    /// The device handle is not connected.
    NotConnected,
    /// The link to the peripheral could not be established.
    ConnectionFailed,
    /// The link to the peripheral could not be closed.
    DisconnectionFailed,
    /// The UUID pair names no characteristic of the peripheral.
    CharacteristicNotFound,
    /// The underlying stack failed during discovery, a read or a write.
    TransportError,
    /// The worker context could not be created.
    RuntimeInitFailed,
    /// The adapter capability could not be opened.
    AdapterInitFailed,
}

/// Mathematical counterpart of [`BleError`].
pub enum BleErrorView {
    InvalidUuid(Seq<char>),
    NotInitialized,
    NoAdapterFound,
    NotConnected,
    ConnectionFailed,
    DisconnectionFailed,
    CharacteristicNotFound,
    TransportError,
    RuntimeInitFailed,
    AdapterInitFailed,
}

impl View for BleError {
    type V = BleErrorView;

    open spec fn view(&self) -> BleErrorView {
        match self {
            BleError::InvalidUuid(text) => BleErrorView::InvalidUuid(text@),
            BleError::NotInitialized => BleErrorView::NotInitialized,
            BleError::NoAdapterFound => BleErrorView::NoAdapterFound,
            BleError::NotConnected => BleErrorView::NotConnected,
            BleError::ConnectionFailed => BleErrorView::ConnectionFailed,
            BleError::DisconnectionFailed => BleErrorView::DisconnectionFailed,
            BleError::CharacteristicNotFound => BleErrorView::CharacteristicNotFound,
            BleError::TransportError => BleErrorView::TransportError,
            BleError::RuntimeInitFailed => BleErrorView::RuntimeInitFailed,
            BleError::AdapterInitFailed => BleErrorView::AdapterInitFailed,
        }
    }
}

} // verus!
