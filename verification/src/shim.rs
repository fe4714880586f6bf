//! What the native callback reports, as a typed message.

use crate::handle::FileHandle;
use vstd::prelude::*;

verus! {

/// The bytes that the native layer passed to the callback: those of the
/// buffer, or none where there was no buffer.
pub open spec fn passed(data: Option<&[u8]>) -> Option<Seq<u8>> {
    match data {
        Some(bytes) => Some(bytes@),
        None => None,
    }
}

/// The bytes that a message carries.
pub open spec fn content(message: Option<FileHandle>) -> Option<Seq<u8>> {
    match message {
        Some(handle) => Some(handle@),
        None => None,
    }
}

/// Turns what the callback was invoked with into the message for the
/// channel: a handle on a copy of the buffer, or `None` where the native
/// layer passed no buffer. The buffer is not kept: the handle owns its copy.
pub fn incoming(data: Option<&[u8]>) -> (message: Option<FileHandle>)
    ensures
        content(message) == passed(data),
{
    match data {
        Some(bytes) => Some(FileHandle::copy_from(bytes)),
        None => None,
    }
}

} // verus!
