//! Interfaces to the memory resources that commands target.
//!
//! A command only reads three things from a resource: its byte size, its
//! native descriptor (driver-level handle plus byte offset into the backing
//! allocation), and whether the "transfer destination" usage flag was set
//! when the resource was created. These are captured here as plain values,
//! behind the `BufferAccess` family of traits, together with a concrete
//! resource description (`RawBuffer`) and its typed counterpart
//! (`TypedRawBuffer`).

use vstd::prelude::*;

verus! {

/// Identity of the device that owns a resource or a builder.
#[derive(Clone, Copy, PartialEq, Eq, Structural, Debug)]
pub struct DeviceRef {
    /// Driver-level identifier of the device.
    pub id: u64,
}

/// Snapshot of a resource's placement inside its backing allocation,
/// as reported by the resource's native descriptor.
#[derive(Clone, Copy, PartialEq, Eq, Structural, Debug)]
pub struct BufferInner {
    /// Driver-level identifier of the backing allocation.
    pub handle: u64,
    /// Byte offset of the resource inside the backing allocation.
    pub offset: u64,
    /// Whether the backing allocation was declared usable as a
    /// transfer destination.
    pub transfer_dest: bool,
}

/// A resource that exposes a byte size and a native descriptor.
pub trait BufferAccess: Sized {
    /// The resource's byte size.
    spec fn view_size(&self) -> u64;

    /// The resource's native descriptor.
    spec fn view_inner(&self) -> BufferInner;

    /// Returns the resource's byte size.
    fn size(&self) -> (r: u64)
        ensures
            r == self.view_size(),
    ;

    /// Returns the resource's native descriptor.
    fn inner(&self) -> (r: BufferInner)
        ensures
            r == self.view_inner(),
    ;
}

/// A value that reports the device owning it.
pub trait DeviceOwned {
    /// The owning device.
    spec fn view_device(&self) -> DeviceRef;

    /// Returns the owning device.
    fn device(&self) -> (r: DeviceRef)
        ensures
            r == self.view_device(),
    ;
}

/// A resource access whose declared content type is known statically.
pub trait TypedBufferAccess: BufferAccess {
    /// The declared content type of the resource.
    type Content;
}

/// A higher-level resource that yields an access handle.
pub trait Buffer: Sized {
    /// The access handle type this resource yields.
    type Access: BufferAccess;

    /// The access handle this resource yields.
    spec fn view_access(self) -> Self::Access;

    /// Yields the access handle.
    fn access(self) -> (r: Self::Access)
        ensures
            r == self.view_access(),
    ;
}

/// A higher-level resource whose declared content type is known statically.
pub trait TypedBuffer: Buffer {
    /// The declared content type of the resource.
    type Content;
}

/// A plain resource description: everything a command reads from the
/// resource it targets, as one value.
#[derive(Clone, Copy, PartialEq, Eq, Structural, Debug)]
pub struct RawBuffer {
    /// Driver-level identifier of the backing allocation.
    pub handle: u64,
    /// Byte offset of the resource inside the backing allocation.
    pub offset: u64,
    /// Byte size of the resource.
    pub size: u64,
    /// Whether the resource was declared usable as a transfer destination.
    pub transfer_dest: bool,
    /// The device that owns the resource.
    pub device: DeviceRef,
}

impl BufferAccess for RawBuffer {
    open spec fn view_size(&self) -> u64 {
        self.size
    }

    open spec fn view_inner(&self) -> BufferInner {
        BufferInner { handle: self.handle, offset: self.offset, transfer_dest: self.transfer_dest }
    }

    fn size(&self) -> u64 {
        self.size
    }

    fn inner(&self) -> BufferInner {
        BufferInner { handle: self.handle, offset: self.offset, transfer_dest: self.transfer_dest }
    }
}

impl DeviceOwned for RawBuffer {
    open spec fn view_device(&self) -> DeviceRef {
        self.device
    }

    fn device(&self) -> DeviceRef {
        self.device
    }
}

/// A resource description that additionally declares, statically, the type
/// of content the resource holds.
pub struct TypedRawBuffer<T> {
    /// The underlying resource description.
    pub raw: RawBuffer,
    /// Marker for the declared content type.
    pub content: core::marker::PhantomData<T>,
}

impl<T> TypedRawBuffer<T> {
    /// Wraps a resource description with a declared content type.
    pub fn new(raw: RawBuffer) -> (r: TypedRawBuffer<T>)
        ensures
            r.raw == raw,
    {
        TypedRawBuffer { raw, content: core::marker::PhantomData }
    }
}

impl<T> BufferAccess for TypedRawBuffer<T> {
    open spec fn view_size(&self) -> u64 {
        self.raw.view_size()
    }

    open spec fn view_inner(&self) -> BufferInner {
        self.raw.view_inner()
    }

    fn size(&self) -> u64 {
        self.raw.size()
    }

    fn inner(&self) -> BufferInner {
        self.raw.inner()
    }
}

impl<T> TypedBufferAccess for TypedRawBuffer<T> {
    type Content = T;
}

impl<T> DeviceOwned for TypedRawBuffer<T> {
    open spec fn view_device(&self) -> DeviceRef {
        self.raw.view_device()
    }

    fn device(&self) -> DeviceRef {
        self.raw.device()
    }
}

impl<T> Buffer for TypedRawBuffer<T> {
    type Access = TypedRawBuffer<T>;

    open spec fn view_access(self) -> TypedRawBuffer<T> {
        self
    }

    fn access(self) -> TypedRawBuffer<T> {
        self
    }
}

impl<T> TypedBuffer for TypedRawBuffer<T> {
    type Content = T;
}

} // verus!
