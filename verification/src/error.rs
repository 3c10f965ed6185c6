//! The error type shared by the device layer.

use vstd::prelude::*;

verus! {

/// Everything that can go wrong between the host and the panel.
#[derive(Debug, Clone, PartialEq, Eq)]
pub enum CommLibError {
    /// The text holds characters outside printable ASCII; the positions of all of them.
    NotAscii(Vec<usize>),
    /// Port enumeration or opening is unavailable; the platform's description.
    NotSupported(String),
    /// No port carries the panel's name.
    NoDeviceFound,
    /// The port could not be queried or read; the detail.
    ReadError(String),
    /// The port could not be written; the detail.
    SendError(String),
    /// The LED index is not 0, 1 or 2.
    InvalidLed(usize),
    /// The text is longer than the display.
    TooLong,
}

pub type CommLibResult<T> = Result<T, CommLibError>;

/// The mathematical content of a [`CommLibError`].
pub enum ErrorView {
    NotAscii(Seq<usize>),
    NotSupported(Seq<char>),
    NoDeviceFound,
    ReadError(Seq<char>),
    SendError(Seq<char>),
    InvalidLed(usize),
    TooLong,
}

impl View for CommLibError {
    type V = ErrorView;

    open spec fn view(&self) -> ErrorView {
        match *self {
            CommLibError::NotAscii(positions) => ErrorView::NotAscii(positions@),
            CommLibError::NotSupported(description) => ErrorView::NotSupported(description@),
            CommLibError::NoDeviceFound => ErrorView::NoDeviceFound,
            CommLibError::ReadError(detail) => ErrorView::ReadError(detail@),
            CommLibError::SendError(detail) => ErrorView::SendError(detail@),
            CommLibError::InvalidLed(index) => ErrorView::InvalidLed(index),
            CommLibError::TooLong => ErrorView::TooLong,
        }
    }
}

} // verus!
