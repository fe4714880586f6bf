//! What the native browser is asked to show.

use crate::extensions::contents;
use crate::extensions::marshal;
use crate::extensions::marshallable;
use crate::extensions::marshalled;
use vstd::prelude::*;

verus! {

/// The arguments of one "show browser" call that this library decides.
#[derive(Debug)]
pub struct BrowserRequest {
    /// The extension filter, each extension NUL-terminated. An empty filter
    /// restricts nothing.
    pub extensions: Vec<Vec<u8>>,
    /// Whether the user may select several files.
    pub allow_multiple: bool,
}

impl BrowserRequest {
    /// The request asks for `extensions`, marshalled, in the given mode.
    pub open spec fn asks(&self, extensions: Seq<&str>, allow_multiple: bool) -> bool {
        &&& contents(self.extensions@) == marshalled(extensions)
        &&& self.allow_multiple == allow_multiple
    }

    /// The request for the filter `extensions` in the given mode.
    pub fn new(extensions: &[&str], allow_multiple: bool) -> (request: BrowserRequest)
        requires
            marshallable(extensions@),
        ensures
            request.asks(extensions@, allow_multiple),
    {
        BrowserRequest { extensions: marshal(extensions), allow_multiple }
    }
}

} // verus!
