//! Buffer marshaller: copies a host-owned byte buffer into
//! enclave-addressable memory.
//!
//! Host and enclave share no address space, so every argument of a boundary
//! call is first copied into memory the enclave owns, and the host keeps
//! only an opaque reference to the copy. The gateway never dereferences that
//! reference; [`EnclaveMemory`] states what the enclave sees on its side of
//! the boundary, so that round-trip fidelity — the enclave reads exactly the
//! bytes the host marshalled — is a proved property rather than a convention.

use vstd::prelude::*;

use crate::router::Variant;

verus! {

/// Opaque reference to a buffer living in enclave memory.
///
/// Ownership of the underlying memory transfers to the enclave-side call
/// that consumes the buffer; the gateway only passes the reference on. The
/// `variant` tag records which enclave's marshaller produced the buffer, so
/// that a dispatch call can insist on buffers from its own backend.
#[derive(Clone, Copy, PartialEq, Eq, Structural, Debug)]
pub struct EnclaveBuffer {
    /// Enclave variant whose marshaller allocated the buffer.
    pub variant: Variant,
    /// Opaque in-enclave reference to the copied bytes.
    pub pointer: usize,
    /// Length of the copied bytes.
    pub length: usize,
}

/// The enclave-side store of marshalled buffers for one enclave variant.
pub struct EnclaveMemory {
    variant: Variant,
    buffers: Vec<Vec<u8>>,
}

impl EnclaveMemory {
    /// The enclave variant this memory belongs to.
    pub closed spec fn spec_variant(&self) -> Variant {
        self.variant
    }

    /// The marshalled buffers, in allocation order.
    pub closed spec fn contents(&self) -> Seq<Seq<u8>> {
        self.buffers@.map_values(|b: Vec<u8>| b@)
    }

    /// Whether a buffer reference points at a live allocation of this
    /// memory, with the length the allocation has.
    pub open spec fn valid_buffer(&self, b: EnclaveBuffer) -> bool {
        &&& b.variant == self.spec_variant()
        &&& b.pointer < self.contents().len()
        &&& self.contents()[b.pointer as int].len() == b.length
    }

    /// Empty enclave memory for a freshly loaded enclave instance.
    pub fn new(variant: Variant) -> (m: EnclaveMemory)
        ensures
            m.spec_variant() == variant,
            m.contents() == Seq::<Seq<u8>>::empty(),
    {
        let m = EnclaveMemory { variant, buffers: Vec::new() };
        proof {
            assert(m.contents() =~= Seq::<Seq<u8>>::empty());
        }
        m
    }

    /// Copy a host buffer into this enclave's memory and hand back the
    /// opaque reference the enclave will recognize. Allocation of a
    /// zero-length buffer succeeds like any other and yields a buffer of
    /// length zero.
    pub fn allocate(&mut self, buffer: &[u8]) -> (b: EnclaveBuffer)
        ensures
            final(self).spec_variant() == old(self).spec_variant(),
            final(self).contents() == old(self).contents().push(buffer@),
            b.variant == old(self).spec_variant(),
            b.pointer == old(self).contents().len(),
            b.length == buffer@.len(),
            final(self).valid_buffer(b),
    {
        let copied: Vec<u8> = vstd::slice::slice_to_vec(buffer);
        let b = EnclaveBuffer {
            variant: self.variant,
            pointer: self.buffers.len(),
            length: buffer.len(),
        };
        self.buffers.push(copied);
        proof {
            assert(self.contents() =~= old(self).contents().push(buffer@));
        }
        b
    }

    /// Whether a buffer reference points at a live allocation of this
    /// memory; the executable test of [`EnclaveMemory::valid_buffer`].
    pub fn contains(&self, b: &EnclaveBuffer) -> (ok: bool)
        ensures
            ok == self.valid_buffer(*b),
    {
        b.variant == self.variant && b.pointer < self.buffers.len() && self.buffers[
            b.pointer
        ].len() == b.length
    }

    /// The enclave-side read of a marshalled buffer: the bytes the enclave
    /// sees when a boundary call consumes the reference.
    pub fn read(&self, b: &EnclaveBuffer) -> (bytes: Vec<u8>)
        requires
            self.valid_buffer(*b),
        ensures
            bytes@ == self.contents()[b.pointer as int],
    {
        vstd::slice::slice_to_vec(self.buffers[b.pointer].as_slice())
    }
}

/// Law (round-trip fidelity): for any enclave memory state and any byte
/// buffer, the in-enclave read of the reference returned by allocation
/// yields bytes identical to the buffer that was marshalled. `allocate`
/// extends the contents with the buffer's bytes and returns a reference to
/// that slot; `read` yields the slot's bytes.
pub proof fn lemma_allocate_read_round_trip(contents: Seq<Seq<u8>>, bytes: Seq<u8>)
    ensures
        contents.push(bytes)[contents.len() as int] == bytes,
{
}

} // verus!
