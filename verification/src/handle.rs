//! The content of a picked file.

use std::sync::Arc;
use vstd::prelude::*;

verus! {

/// Shares the bytes of `data` behind a reference count.
///
/// Trusted: `Arc::<[u8]>::from` on a slice allocates a counted buffer and
/// copies the slice into it, so the buffer holds exactly the bytes of `data`.
#[verifier::external_body]
fn share_bytes(data: &[u8]) -> (shared: Arc<[u8]>)
    ensures
        (*shared)@ == data@,
{
    Arc::from(data)
}

/// The full content of one selected file: an immutable, reference-counted
/// byte buffer.
#[derive(Debug)]
pub struct FileHandle(Arc<[u8]>);

impl View for FileHandle {
    type V = Seq<u8>;

    closed spec fn view(&self) -> Seq<u8> {
        (*self.0)@
    }
}

impl FileHandle {
    /// Copies `data` into a newly allocated shared buffer.
    pub fn copy_from(data: &[u8]) -> (handle: FileHandle)
        ensures
            handle@ == data@,
    {
        FileHandle(share_bytes(data))
    }
}

impl Clone for FileHandle {
    fn clone(&self) -> (copy: FileHandle)
        ensures
            copy@ == self@,
    {
        FileHandle(self.0.clone())
    }
}

impl std::ops::Deref for FileHandle {
    type Target = [u8];

    fn deref(&self) -> (bytes: &[u8])
        ensures
            bytes@ == self@,
    {
        &*self.0
    }
}

} // verus!
