//! Choosing the serial port the panel is attached to.
//!
//! The caller enumerates the system's serial ports and opens the chosen one;
//! the rules for choosing are here.

use vstd::prelude::*;
use crate::error::{CommLibError, CommLibResult, ErrorView};
use crate::text::{chars_of, contains, has_infix};

verus! {

/// The panel is opened at this baud rate.
pub const BAUD_RATE: u32 = 9600;

/// A port belongs to the panel's device class if its name holds the vendor's
/// marker, `usbmodem`.
pub open spec fn is_candidate(name: Seq<char>) -> bool {
    has_infix(name, "usbmodem"@)
}

/// The port to open, and how.
#[derive(Debug, Clone, PartialEq, Eq)]
pub struct PortRequest {
    pub name: String,
    pub baud_rate: u32,
}

/// Whether the port called `name` belongs to the panel's device class.
pub fn is_potential_device(name: &str) -> (b: bool)
    ensures
        b == is_candidate(name@),
{
    let marker = chars_of("usbmodem");
    let name_chars = chars_of(name);
    contains(&name_chars, &marker)
}

/// From the outcome of enumerating the system's serial ports (their names in
/// the system's order, or the description of the failure), the names of the
/// ports that may be the panel, in the same order. A failed enumeration is
/// [`CommLibError::NotSupported`] with the same description.
pub fn get_potential_devices(listing: Result<Vec<String>, String>) -> (r: CommLibResult<
    Vec<String>,
>)
    ensures
        match listing {
            Ok(names) => r matches Ok(found) && found@ == names@.filter(
                |name: String| is_candidate(name@),
            ),
            Err(description) => r matches Err(e) && e@ == ErrorView::NotSupported(description@),
        },
{
    match listing {
        Ok(names) => {
            let ghost wanted = |name: String| is_candidate(name@);
            let mut found: Vec<String> = Vec::new();
            let mut i: usize = 0;
            while i < names.len()
                invariant
                    i <= names.len(),
                    wanted == |name: String| is_candidate(name@),
                    found@ == names@.take(i as int).filter(wanted),
                decreases names.len() - i,
            {
                proof {
                    assert(names@.take(i + 1) == names@.take(i as int).push(names@[i as int]));
                    names@.take(i as int).lemma_filter_push(names@[i as int], wanted);
                }
                if is_potential_device(names[i].as_str()) {
                    found.push(names[i].clone());
                }
                i += 1;
            }
            assert(names@.take(i as int) == names@);
            Ok(found)
        },
        Err(description) => Err(CommLibError::NotSupported(description)),
    }
}

/// From the outcome of enumerating the system's serial ports, the port to
/// open: the first that may be the panel, at 9600 baud. Without such a port
/// the result is [`CommLibError::NoDeviceFound`]; a failed enumeration is
/// [`CommLibError::NotSupported`].
pub fn get_best_match_device(listing: Result<Vec<String>, String>) -> (r: CommLibResult<
    PortRequest,
>)
    ensures
        match listing {
            Ok(names) => {
                let found = names@.filter(|name: String| is_candidate(name@));
                if found.len() == 0 {
                    r matches Err(e) && e@ == ErrorView::NoDeviceFound
                } else {
                    r matches Ok(request) && request.name == found[0] && request.baud_rate == 9600
                }
            },
            Err(description) => r matches Err(e) && e@ == ErrorView::NotSupported(description@),
        },
{
    match get_potential_devices(listing) {
        Ok(mut list) => {
            if list.len() == 0 {
                Err(CommLibError::NoDeviceFound)
            } else {
                let name = list.remove(0);
                Ok(PortRequest { name, baud_rate: BAUD_RATE })
            }
        },
        Err(e) => Err(e),
    }
}

/// The error for a port that could not be opened:
/// [`CommLibError::NotSupported`] with the platform's description.
pub fn open_failed(description: String) -> (e: CommLibError)
    ensures
        e@ == ErrorView::NotSupported(description@),
{
    CommLibError::NotSupported(description)
}

} // verus!
