//! The terminal screen that frames are drawn on. Drawing itself is terminal
//! output and lives with the program around the library.
use vstd::prelude::*;

verus! {

pub struct Screen {}

impl Screen {
    pub fn new() -> (r: Self) {
        Screen {}
    }
}

} // verus!
