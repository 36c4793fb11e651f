//! Custom effects: user-authored effect programs loaded from a file.
//!
//! The program's internal layout belongs to the device-management
//! subsystem; this crate carries it as an opaque byte payload from the
//! file reader to the dispatcher, untouched.

use vstd::prelude::*;

verus! {

/// A user-authored effect program, opaque to this crate.
#[derive(Clone, Debug)]
pub struct CustomEffect {
    /// The raw effect program, exactly as read from the file.
    pub data: Vec<u8>,
}

impl CustomEffect {
    /// Wraps the raw bytes of an effect program file.
    pub fn from_bytes(data: Vec<u8>) -> (r: CustomEffect)
        ensures
            r.data@ == data@,
    {
        CustomEffect { data }
    }
}

} // verus!
