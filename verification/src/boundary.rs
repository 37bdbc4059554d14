use vstd::prelude::*;
use crate::codec::compress_bytes;
use crate::codec::decompress_bytes;
use crate::codec::xz_decoding;
use crate::codec::xz_encoding;
use crate::status::Status;

verus! {

/// What a boundary call asks the raw-memory edge to do next. The edge
/// hands the library the caller's input view (`None` for a null input
/// pointer) and the nullness of the two output slots; it gets back one
/// of these instructions.
#[derive(Debug)]
pub enum CallStep {
    /// the call is rejected with this status; the output slots are
    /// left untouched
    Reject(Status),
    /// success with an empty result: write a null pointer and a zero
    /// length to the output slots — an empty result never allocates
    WriteEmpty,
    /// success with this payload: request a block of `payload.len()`
    /// bytes (never zero) from the shared allocator, copy the payload
    /// into it, and settle with `complete_transfer`
    Transfer(Vec<u8>),
}

/// Whether the raw arguments of a call pass the boundary validation:
/// the input pointer and both output-slot pointers must be non-null.
pub open spec fn args_accepted(
    input: Option<&[u8]>,
    out_ptr_null: bool,
    out_len_null: bool,
) -> bool {
    input is Some && !out_ptr_null && !out_len_null
}

/// The full compression pipeline behind the boundary: validate the
/// arguments, encode the borrowed input, and decide the transfer.
/// A null argument is rejected — and nothing else is — before any data
/// is touched; on success the payload is exactly the XZ container for
/// the input, and decoding it yields the input again.
pub fn compress_call(
    input: Option<&[u8]>,
    out_ptr_null: bool,
    out_len_null: bool,
) -> (step: CallStep)
    ensures
        !args_accepted(input, out_ptr_null, out_len_null)
            <==> step == CallStep::Reject(Status::NullPointer),
        match step {
            CallStep::Reject(s) => s == Status::NullPointer || s == Status::IoFailure,
            CallStep::WriteEmpty => input matches Some(data)
                && xz_encoding(data@).len() == 0,
            CallStep::Transfer(payload) => input matches Some(data) && {
                &&& payload@ == xz_encoding(data@)
                &&& payload@.len() > 0
                &&& xz_decoding(payload@) == Some(data@)
            },
        },
{
    if out_ptr_null || out_len_null {
        return CallStep::Reject(Status::NullPointer);
    }
    let data = match input {
        Some(data) => data,
        None => {
            return CallStep::Reject(Status::NullPointer);
        },
    };
    let payload = match compress_bytes(data) {
        Ok(payload) => payload,
        Err(s) => {
            return CallStep::Reject(s);
        },
    };
    if payload.len() == 0 {
        CallStep::WriteEmpty
    } else {
        CallStep::Transfer(payload)
    }
}

/// The full decompression pipeline behind the boundary: validate the
/// arguments, decode the borrowed container, and decide the transfer.
/// A null argument is rejected with `NullPointer`; a container the
/// decoder does not accept — and nothing else — is rejected with
/// `IoFailure`; on success the payload is exactly what the container
/// decodes to, with the empty payload announced as `WriteEmpty`.
pub fn decompress_call(
    input: Option<&[u8]>,
    out_ptr_null: bool,
    out_len_null: bool,
) -> (step: CallStep)
    ensures
        !args_accepted(input, out_ptr_null, out_len_null)
            <==> step == CallStep::Reject(Status::NullPointer),
        match step {
            CallStep::Reject(s) => s == Status::NullPointer
                || (s == Status::IoFailure
                    && (input matches Some(data) ==> xz_decoding(data@) is None)),
            CallStep::WriteEmpty => input matches Some(data)
                && (xz_decoding(data@) matches Some(payload) && payload.len() == 0),
            CallStep::Transfer(payload) => input matches Some(data) && {
                &&& xz_decoding(data@) == Some(payload@)
                &&& payload@.len() > 0
            },
        },
{
    if out_ptr_null || out_len_null {
        return CallStep::Reject(Status::NullPointer);
    }
    let data = match input {
        Some(data) => data,
        None => {
            return CallStep::Reject(Status::NullPointer);
        },
    };
    let payload = match decompress_bytes(data) {
        Ok(payload) => payload,
        Err(s) => {
            return CallStep::Reject(s);
        },
    };
    if payload.len() == 0 {
        CallStep::WriteEmpty
    } else {
        CallStep::Transfer(payload)
    }
}

/// How an ownership transfer of a non-empty payload ends once the shared
/// allocator has answered.
#[derive(Debug)]
pub enum TransferEnd {
    /// write `addr` to the pointer slot and `len` to the length slot and
    /// return success: the block is the caller's from this instant
    WriteBlock { addr: usize, len: usize },
    /// the allocator returned null: report this status and leave the
    /// output slots untouched — nothing was handed out, nothing leaks
    Abandon(Status),
}

/// Settle an ownership transfer of a non-empty payload. `alloc_addr` is
/// the address the shared allocator returned for the requested
/// `payload_len` bytes, with 0 standing for a null (failed) allocation.
/// A failed allocation is reported as `AllocFailure` and hands nothing
/// out; otherwise exactly the allocated block, at its full length, is
/// written back to the caller.
pub fn complete_transfer(payload_len: usize, alloc_addr: usize) -> (end: TransferEnd)
    requires
        payload_len > 0,
    ensures
        alloc_addr == 0 ==> end == TransferEnd::Abandon(Status::AllocFailure),
        alloc_addr != 0 ==> end == (TransferEnd::WriteBlock {
            addr: alloc_addr,
            len: payload_len,
        }),
{
    if alloc_addr == 0 {
        TransferEnd::Abandon(Status::AllocFailure)
    } else {
        TransferEnd::WriteBlock { addr: alloc_addr, len: payload_len }
    }
}

/// Whether releasing the address `addr` hands it to the allocator's
/// deallocator: exactly the non-null addresses are freed, and releasing
/// the null address of an empty result is the documented no-op.
pub open spec fn spec_frees(addr: usize) -> bool {
    addr != 0
}

/// The release decision for a pointer previously issued by an ownership
/// transfer: free it exactly when it is non-null. The decision is
/// stateless, so releasing null any number of times does nothing.
pub fn release_call(addr: usize) -> (frees: bool)
    ensures
        frees == spec_frees(addr),
{
    addr != 0
}

/// The blocks outstanding with the caller after a transfer writes `addr`
/// back: a non-null address joins the outstanding set, while the null
/// address of an empty result hands nothing out.
pub open spec fn after_transfer(outstanding: Set<usize>, addr: usize) -> Set<usize> {
    if addr != 0 {
        outstanding.insert(addr)
    } else {
        outstanding
    }
}

/// The blocks outstanding after the caller releases `addr`: exactly a
/// freed address leaves the set.
pub open spec fn after_release(outstanding: Set<usize>, addr: usize) -> Set<usize> {
    if spec_frees(addr) {
        outstanding.remove(addr)
    } else {
        outstanding
    }
}

/// Allocator/deallocator pairing: releasing an address exactly once after
/// the transfer that handed it out leaves no outstanding allocation — the
/// outstanding set returns to what it was, whether the transfer wrote a
/// fresh non-null block or the null address of an empty result.
pub proof fn lemma_release_pairs_transfer(outstanding: Set<usize>, addr: usize)
    requires
        !outstanding.contains(addr),
    ensures
        after_release(after_transfer(outstanding, addr), addr) == outstanding,
{
    if addr != 0 {
        assert(outstanding.insert(addr).remove(addr) =~= outstanding);
    }
}

/// Releasing the null address is a no-op on the outstanding blocks,
/// however many times it is performed.
pub proof fn lemma_release_null_noop(outstanding: Set<usize>)
    ensures
        after_release(outstanding, 0) == outstanding,
{
}

} // verus!
