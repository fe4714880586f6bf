//! Marshalling of the extension filter for the native boundary, where every
//! string ends at its first NUL byte.

use vstd::prelude::*;
use vstd::string::StringSliceAdditionalSpecFns;

verus! {

/// The byte that ends a string at the native boundary.
pub const NUL: u8 = 0;

/// No byte of `bytes` is NUL.
pub open spec fn nul_free(bytes: Seq<u8>) -> bool {
    forall|i: int| 0 <= i < bytes.len() ==> bytes[i] != NUL
}

/// `bytes` followed by the terminating NUL.
pub open spec fn terminated(bytes: Seq<u8>) -> Seq<u8> {
    bytes.push(NUL)
}

/// What a reader that stops at the first NUL gets from `buffer`.
pub open spec fn read_back(buffer: Seq<u8>) -> Seq<u8>
    decreases buffer.len(),
{
    if buffer.len() == 0 || buffer[0] == NUL {
        Seq::empty()
    } else {
        seq![buffer[0]] + read_back(buffer.drop_first())
    }
}

/// Every extension of the filter can be terminated without being cut short.
pub open spec fn marshallable(extensions: Seq<&str>) -> bool {
    forall|i: int| 0 <= i < extensions.len() ==> nul_free(#[trigger] extensions[i].spec_bytes())
}

/// The terminated copies of the filter's extensions, in their order.
pub open spec fn marshalled(extensions: Seq<&str>) -> Seq<Seq<u8>> {
    Seq::new(extensions.len(), |i: int| terminated(extensions[i].spec_bytes()))
}

/// The bytes held by each buffer of `buffers`.
pub open spec fn contents(buffers: Seq<Vec<u8>>) -> Seq<Seq<u8>> {
    Seq::new(buffers.len(), |i: int| buffers[i]@)
}

/// A terminated copy of a NUL-free string reads back as that string: the
/// terminator is its first NUL.
pub proof fn lemma_terminated_reads_back(bytes: Seq<u8>)
    requires
        nul_free(bytes),
    ensures
        read_back(terminated(bytes)) == bytes,
    decreases bytes.len(),
{
    let buffer = terminated(bytes);
    if bytes.len() == 0 {
        assert(buffer[0] == NUL);
        assert(read_back(buffer) == bytes);
    } else {
        let rest = bytes.drop_first();
        assert(nul_free(rest)) by {
            assert forall|i: int| 0 <= i < rest.len() implies rest[i] != NUL by {
                assert(rest[i] == bytes[i + 1]);
            }
        }
        lemma_terminated_reads_back(rest);
        assert(buffer.drop_first() == terminated(rest));
        assert(buffer[0] == bytes[0]);
        assert(seq![bytes[0]] + rest == bytes);
    }
}

/// Whether `bytes` holds no NUL byte.
pub fn is_nul_free(bytes: &[u8]) -> (free: bool)
    ensures
        free == nul_free(bytes@),
{
    let mut at: usize = 0;
    while at < bytes.len()
        invariant
            at <= bytes.len(),
            forall|i: int| 0 <= i < at ==> bytes@[i] != NUL,
        decreases bytes.len() - at,
    {
        if bytes[at] == NUL {
            return false;
        }
        at += 1;
    }
    true
}

/// A copy of `extension` with the terminating NUL appended. Read up to its
/// first NUL, the copy gives `extension` back.
pub fn terminate(extension: &str) -> (buffer: Vec<u8>)
    requires
        nul_free(extension.spec_bytes()),
    ensures
        buffer@ == terminated(extension.spec_bytes()),
        read_back(buffer@) == extension.spec_bytes(),
{
    let mut buffer: Vec<u8> = Vec::new();
    buffer.extend_from_slice(extension.as_bytes());
    buffer.push(NUL);
    proof {
        assert(buffer@ =~= terminated(extension.spec_bytes()));
        lemma_terminated_reads_back(extension.spec_bytes());
    }
    buffer
}

/// Whether every extension of the filter is free of NUL bytes.
pub fn is_marshallable(extensions: &[&str]) -> (ok: bool)
    ensures
        ok == marshallable(extensions@),
{
    let mut at: usize = 0;
    while at < extensions.len()
        invariant
            at <= extensions.len(),
            forall|i: int| 0 <= i < at ==> nul_free(#[trigger] extensions@[i].spec_bytes()),
        decreases extensions.len() - at,
    {
        if !is_nul_free(extensions[at].as_bytes()) {
            return false;
        }
        at += 1;
    }
    true
}

/// The terminated copies of the filter's extensions: as many buffers as
/// extensions, each the corresponding extension followed by one NUL, so
/// that it reads back as that extension.
pub fn marshal(extensions: &[&str]) -> (buffers: Vec<Vec<u8>>)
    requires
        marshallable(extensions@),
    ensures
        buffers@.len() == extensions@.len(),
        contents(buffers@) == marshalled(extensions@),
        forall|i: int|
            0 <= i < extensions@.len() ==> read_back((#[trigger] buffers@[i])@)
                == extensions@[i].spec_bytes(),
{
    let mut buffers: Vec<Vec<u8>> = Vec::new();
    let mut at: usize = 0;
    while at < extensions.len()
        invariant
            at <= extensions.len(),
            marshallable(extensions@),
            buffers@.len() == at,
            forall|i: int|
                0 <= i < at ==> (#[trigger] buffers@[i])@ == terminated(
                    extensions@[i].spec_bytes(),
                ),
            forall|i: int|
                0 <= i < at ==> read_back((#[trigger] buffers@[i])@)
                    == extensions@[i].spec_bytes(),
        decreases extensions.len() - at,
    {
        buffers.push(terminate(extensions[at]));
        at += 1;
    }
    assert(contents(buffers@) =~= marshalled(extensions@));
    buffers
}

} // verus!
