//! The validated "update buffer contents" command.
//!
//! A `CmdUpdateBuffer` describes one in-place overwrite of a byte range of a
//! memory resource. It can only be built through constructors that enforce,
//! in order: the resource carries the "transfer destination" usage flag, its
//! byte offset is a multiple of 4, its byte size is a multiple of 4, and its
//! byte size is at most 64 KiB. A successfully built command is immutable
//! and carries a snapshot of the resource's native handle, offset and size,
//! so injection uses exactly the values that passed validation.

use vstd::prelude::*;

use crate::buffer::Buffer;
use crate::buffer::BufferAccess;
use crate::buffer::BufferInner;
use crate::buffer::DeviceOwned;
use crate::buffer::DeviceRef;
use crate::buffer::TypedBuffer;
use crate::buffer::TypedBufferAccess;

verus! {

/// Largest byte size an update command may cover.
pub const MAX_UPDATE_SIZE: u64 = 65536;

/// Error that can happen when building a `CmdUpdateBuffer`.
#[derive(Debug, Copy, Clone, PartialEq, Eq, Structural)]
pub enum CmdUpdateBufferError {
    /// The "transfer destination" usage must be enabled on the buffer.
    BufferMissingUsage,
    /// The offset or the size is not aligned to 4 bytes.
    WrongAlignment,
    /// The data must not be larger than 64k bytes.
    DataTooLarge,
}

impl CmdUpdateBufferError {
    /// A short description of the error.
    pub fn description(&self) -> (r: &'static str)
        ensures
            *self is BufferMissingUsage
                ==> r@ == "the transfer destination usage must be enabled on the buffer"@,
            *self is WrongAlignment ==> r@ == "the offset or size are not aligned to 4 bytes"@,
            *self is DataTooLarge ==> r@ == "data is too large"@,
    {
        match *self {
            CmdUpdateBufferError::BufferMissingUsage => {
                "the transfer destination usage must be enabled on the buffer"
            },
            CmdUpdateBufferError::WrongAlignment => {
                "the offset or size are not aligned to 4 bytes"
            },
            CmdUpdateBufferError::DataTooLarge => "data is too large",
        }
    }
}

/// Whether a resource with descriptor `inner` and byte size `size` passes
/// every construction-time check.
pub open spec fn construction_ok(inner: BufferInner, size: u64) -> bool {
    &&& inner.transfer_dest
    &&& inner.offset % 4 == 0
    &&& size % 4 == 0
    &&& size <= MAX_UPDATE_SIZE
}

/// The error construction reports for a resource with descriptor `inner`
/// and byte size `size`, following the order in which the checks run:
/// usage flag first, then offset alignment, then size alignment, then the
/// size ceiling.
pub open spec fn construction_error(inner: BufferInner, size: u64) -> CmdUpdateBufferError
    recommends
        !construction_ok(inner, size),
{
    if !inner.transfer_dest {
        CmdUpdateBufferError::BufferMissingUsage
    } else if inner.offset % 4 != 0 {
        CmdUpdateBufferError::WrongAlignment
    } else if size % 4 != 0 {
        CmdUpdateBufferError::WrongAlignment
    } else {
        CmdUpdateBufferError::DataTooLarge
    }
}

/// Command that sets the content of a buffer to some data.
pub struct CmdUpdateBuffer<B, D> {
    // The buffer to update.
    buffer: B,
    // Raw buffer handle, captured at construction.
    buffer_handle: u64,
    // Offset of the update, captured at construction.
    offset: u64,
    // Size of the update, captured at construction.
    size: u64,
    // The data to write to the buffer.
    data: D,
}

impl<B, D> CmdUpdateBuffer<B, D> {
    /// The buffer the command targets.
    pub closed spec fn spec_buffer(self) -> B {
        self.buffer
    }

    /// The payload the command writes.
    pub closed spec fn spec_data(self) -> D {
        self.data
    }

    /// The native handle captured at construction.
    pub closed spec fn spec_buffer_handle(self) -> u64 {
        self.buffer_handle
    }

    /// The byte offset captured at construction.
    pub closed spec fn spec_offset(self) -> u64 {
        self.offset
    }

    /// The byte size captured at construction.
    pub closed spec fn spec_size(self) -> u64 {
        self.size
    }

    /// Returns the buffer that is going to be written.
    pub fn buffer(&self) -> (r: &B)
        ensures
            *r == self.spec_buffer(),
    {
        &self.buffer
    }

    /// Returns the native handle captured at construction.
    pub fn buffer_handle(&self) -> (r: u64)
        ensures
            r == self.spec_buffer_handle(),
    {
        self.buffer_handle
    }

    /// Returns the byte offset captured at construction.
    pub fn offset(&self) -> (r: u64)
        ensures
            r == self.spec_offset(),
    {
        self.offset
    }

    /// Returns the byte size captured at construction.
    pub fn size(&self) -> (r: u64)
        ensures
            r == self.spec_size(),
    {
        self.size
    }

    /// Returns the payload the command writes.
    pub fn data(&self) -> (r: &D)
        ensures
            *r == self.spec_data(),
    {
        &self.data
    }
}

impl<B: BufferAccess, D> CmdUpdateBuffer<B, D> {
    /// The invariant every successfully built command satisfies: the usage
    /// flag was set, the captured handle, offset and size are exactly the
    /// resource's own, and offset and size are 4-byte aligned with the size
    /// at most `MAX_UPDATE_SIZE`.
    pub open spec fn wf(self) -> bool {
        &&& self.spec_buffer().view_inner().transfer_dest
        &&& self.spec_buffer_handle() == self.spec_buffer().view_inner().handle
        &&& self.spec_offset() == self.spec_buffer().view_inner().offset
        &&& self.spec_size() == self.spec_buffer().view_size()
        &&& self.spec_offset() % 4 == 0
        &&& self.spec_size() % 4 == 0
        &&& self.spec_size() <= MAX_UPDATE_SIZE
    }

    /// Builds a command that writes data to a buffer.
    ///
    /// If the size of the data and the size of the buffer mismatch, then
    /// only the intersection of both will be written; the payload's own
    /// length is deliberately not cross-checked here, the truncation is
    /// left to the recording layer.
    ///
    /// The size of the modification must not exceed 65536 bytes. The offset
    /// and size must be multiples of four.
    pub fn new<P>(buffer: P, data: D) -> (r: Result<CmdUpdateBuffer<B, D>, CmdUpdateBufferError>)
        where
            P: Buffer<Access = B> + TypedBuffer<Content = D>,
            D: 'static,
        ensures
            r is Ok <==> construction_ok(
                buffer.view_access().view_inner(),
                buffer.view_access().view_size(),
            ),
            r matches Err(e) ==> e == construction_error(
                buffer.view_access().view_inner(),
                buffer.view_access().view_size(),
            ),
            r matches Ok(c) ==> {
                &&& c.wf()
                &&& c.spec_buffer() == buffer.view_access()
                &&& c.spec_data() == data
            },
    {
        CmdUpdateBuffer::unchecked_type(buffer.access(), data)
    }

    /// Same as `new`, except that the parameter is a `BufferAccess` instead
    /// of a `Buffer`.
    pub fn from_access(buffer: B, data: D) -> (r: Result<
        CmdUpdateBuffer<B, D>,
        CmdUpdateBufferError,
    >)
        where
            B: TypedBufferAccess<Content = D>,
            D: 'static,
        ensures
            r is Ok <==> construction_ok(buffer.view_inner(), buffer.view_size()),
            r matches Err(e) ==> e == construction_error(buffer.view_inner(), buffer.view_size()),
            r matches Ok(c) ==> {
                &&& c.wf()
                &&& c.spec_buffer() == buffer
                &&& c.spec_data() == data
            },
    {
        CmdUpdateBuffer::unchecked_type(buffer, data)
    }

    /// Same as `from_access`, except that no static relationship between the
    /// resource's declared content type and the payload type is required:
    /// the caller asserts type-compatibility out of band.
    pub fn unchecked_type(buffer: B, data: D) -> (r: Result<
        CmdUpdateBuffer<B, D>,
        CmdUpdateBufferError,
    >)
        ensures
            r is Ok <==> construction_ok(buffer.view_inner(), buffer.view_size()),
            r matches Err(e) ==> e == construction_error(buffer.view_inner(), buffer.view_size()),
            r matches Ok(c) ==> {
                &&& c.wf()
                &&& c.spec_buffer() == buffer
                &&& c.spec_data() == data
            },
    {
        let size = buffer.size();
        let inner = buffer.inner();

        if !inner.transfer_dest {
            return Err(CmdUpdateBufferError::BufferMissingUsage);
        }
        if inner.offset % 4 != 0 {
            return Err(CmdUpdateBufferError::WrongAlignment);
        }
        if size % 4 != 0 {
            return Err(CmdUpdateBufferError::WrongAlignment);
        }
        if size > MAX_UPDATE_SIZE {
            return Err(CmdUpdateBufferError::DataTooLarge);
        }

        Ok(CmdUpdateBuffer {
            buffer,
            buffer_handle: inner.handle,
            offset: inner.offset,
            size,
            data,
        })
    }
}

impl<B: DeviceOwned, D> DeviceOwned for CmdUpdateBuffer<B, D> {
    open spec fn view_device(&self) -> DeviceRef {
        self.spec_buffer().view_device()
    }

    fn device(&self) -> DeviceRef {
        self.buffer.device()
    }
}

/// Law: a resource that lacks the "transfer destination" usage is rejected
/// with `BufferMissingUsage`, regardless of its offset, size, or payload.
pub proof fn lemma_missing_usage_rejected(inner: BufferInner, size: u64)
    requires
        !inner.transfer_dest,
    ensures
        !construction_ok(inner, size),
        construction_error(inner, size) == CmdUpdateBufferError::BufferMissingUsage,
{
}

/// Law: with the usage flag set and a valid size, a resource whose offset is
/// not a multiple of 4 is rejected with `WrongAlignment`.
pub proof fn lemma_misaligned_offset_rejected(inner: BufferInner, size: u64)
    requires
        inner.transfer_dest,
        inner.offset % 4 != 0,
    ensures
        !construction_ok(inner, size),
        construction_error(inner, size) == CmdUpdateBufferError::WrongAlignment,
{
}

/// Law: with the usage flag set, a resource whose byte size is not a
/// multiple of 4 is rejected with `WrongAlignment`, whether or not the
/// offset is aligned.
pub proof fn lemma_misaligned_size_rejected(inner: BufferInner, size: u64)
    requires
        inner.transfer_dest,
        size % 4 != 0,
    ensures
        !construction_ok(inner, size),
        construction_error(inner, size) == CmdUpdateBufferError::WrongAlignment,
{
}

/// Law: with the usage flag set and both alignments valid, a byte size above
/// `MAX_UPDATE_SIZE` is rejected with `DataTooLarge`, while a byte size of
/// exactly `MAX_UPDATE_SIZE` passes every check (the ceiling is inclusive).
pub proof fn lemma_size_ceiling(inner: BufferInner, size: u64)
    requires
        inner.transfer_dest,
        inner.offset % 4 == 0,
        size % 4 == 0,
    ensures
        size > MAX_UPDATE_SIZE ==> !construction_ok(inner, size) && construction_error(inner, size)
            == CmdUpdateBufferError::DataTooLarge,
        size <= MAX_UPDATE_SIZE ==> construction_ok(inner, size),
{
}

} // verus!
