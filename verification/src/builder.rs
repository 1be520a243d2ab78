//! The command-buffer builder and the command-injection protocol.
//!
//! A `CommandBufferBuilder` models a recording session: it owns the
//! recording stream, a sequence of appended records. The `AddCommand` trait
//! is the injection protocol: it consumes a builder, appends one validated
//! command's effect to the stream, and returns the builder so that further
//! injections can be chained. Injection performs no validation of its own;
//! its only failure is the builder-level one, a session that is no longer
//! recording.

use vstd::prelude::*;

use crate::buffer::BufferAccess;
use crate::buffer::DeviceOwned;
use crate::buffer::DeviceRef;
use crate::command::CmdUpdateBuffer;

verus! {

/// Content that can be handed to the recording layer as raw bytes.
pub trait BufferContents {
    /// The content's byte representation.
    spec fn spec_bytes(&self) -> Seq<u8>;

    /// Returns the content's byte representation.
    fn to_bytes(&self) -> (r: Vec<u8>)
        ensures
            r@ == self.spec_bytes(),
    ;
}

impl BufferContents for Vec<u8> {
    open spec fn spec_bytes(&self) -> Seq<u8> {
        self@
    }

    fn to_bytes(&self) -> (r: Vec<u8>) {
        let mut out: Vec<u8> = Vec::new();
        let mut i: usize = 0;
        while i < self.len()
            invariant
                i <= self@.len(),
                out@ == self@.subrange(0, i as int),
            decreases self@.len() - i,
        {
            out.push(self[i]);
            proof {
                assert(self@.subrange(0, i as int).push(self@[i as int]) =~= self@.subrange(
                    0,
                    i as int + 1,
                ));
            }
            i += 1;
        }
        proof {
            assert(self@.subrange(0, self@.len() as int) =~= self@);
        }
        out
    }
}

/// Error that can happen when appending a command to a builder.
#[derive(Debug, Copy, Clone, PartialEq, Eq, Structural)]
pub enum CommandAddError {
    /// The builder's recording session has already ended.
    NotRecording,
}

/// Category of command pool a builder draws its storage from. Pool
/// management itself is outside this subsystem; the category is a marker.
pub trait CommandPool {
}

/// The general-purpose pool category.
#[derive(Clone, Copy, PartialEq, Eq, Structural, Debug)]
pub struct StandardCommandPool;

impl CommandPool for StandardCommandPool {
}

/// One record appended to the recording stream: the captured native handle,
/// offset and size of a validated command, and the payload's bytes.
///
/// If the payload's byte length and the recorded size disagree, only the
/// overlapping range is meaningful to the recording layer; the record keeps
/// both untouched.
pub struct RecordedUpdate {
    /// Driver-level identifier of the target allocation.
    pub buffer_handle: u64,
    /// Byte offset of the write.
    pub offset: u64,
    /// Byte size of the write.
    pub size: u64,
    /// The payload's byte representation.
    pub bytes: Vec<u8>,
}

impl RecordedUpdate {
    /// The record as a plain tuple of handle, offset, size and bytes.
    pub open spec fn repr(self) -> (u64, u64, u64, Seq<u8>) {
        (self.buffer_handle, self.offset, self.size, self.bytes@)
    }
}

/// The record a validated command contributes to the recording stream.
pub open spec fn record_of<B: BufferAccess, D: BufferContents>(c: CmdUpdateBuffer<B, D>) -> (
    u64,
    u64,
    u64,
    Seq<u8>,
) {
    (c.spec_buffer_handle(), c.spec_offset(), c.spec_size(), c.spec_data().spec_bytes())
}

/// A command-buffer builder: one recording session's stream of appended
/// command records.
pub struct CommandBufferBuilder<P: CommandPool> {
    pool: P,
    device: DeviceRef,
    recording: bool,
    commands: Vec<RecordedUpdate>,
}

impl<P: CommandPool> CommandBufferBuilder<P> {
    /// Whether the builder's recording session is still open.
    pub closed spec fn spec_recording(self) -> bool {
        self.recording
    }

    /// The recording stream so far, newest record last.
    pub closed spec fn spec_commands(self) -> Seq<(u64, u64, u64, Seq<u8>)> {
        self.commands@.map_values(|r: RecordedUpdate| r.repr())
    }

    /// The device the builder records for.
    pub closed spec fn spec_device(self) -> DeviceRef {
        self.device
    }

    /// Opens a recording session with an empty stream.
    pub fn start(pool: P, device: DeviceRef) -> (r: CommandBufferBuilder<P>)
        ensures
            r.spec_recording(),
            r.spec_commands() == Seq::<(u64, u64, u64, Seq<u8>)>::empty(),
            r.spec_device() == device,
    {
        let r = CommandBufferBuilder { pool, device, recording: true, commands: Vec::new() };
        proof {
            assert(r.spec_commands() =~= Seq::<(u64, u64, u64, Seq<u8>)>::empty());
        }
        r
    }

    /// Ends the recording session: the stream is kept, but no further
    /// command can be appended.
    pub fn end(self) -> (r: CommandBufferBuilder<P>)
        ensures
            !r.spec_recording(),
            r.spec_commands() == self.spec_commands(),
            r.spec_device() == self.spec_device(),
    {
        CommandBufferBuilder { recording: false, ..self }
    }

    /// Whether the recording session is still open.
    pub fn is_recording(&self) -> (r: bool)
        ensures
            r == self.spec_recording(),
    {
        self.recording
    }

    /// How many records the stream holds.
    pub fn num_commands(&self) -> (r: usize)
        ensures
            r == self.spec_commands().len(),
    {
        self.commands.len()
    }

    /// The `i`-th record of the stream, oldest first.
    pub fn command_at(&self, i: usize) -> (r: &RecordedUpdate)
        requires
            i < self.spec_commands().len(),
        ensures
            r.repr() == self.spec_commands()[i as int],
    {
        &self.commands[i]
    }
}

impl<P: CommandPool> DeviceOwned for CommandBufferBuilder<P> {
    open spec fn view_device(&self) -> DeviceRef {
        self.spec_device()
    }

    fn device(&self) -> DeviceRef {
        self.device
    }
}

/// The injection protocol: append one validated command onto a builder's
/// recording stream, taking the builder by value and handing it back so
/// further injections can be chained.
pub trait AddCommand<C>: Sized {
    /// The builder type handed back on success.
    type Out;

    /// Whether the builder accepts a new command.
    spec fn spec_can_add(self, command: C) -> bool;

    /// How the builder handed back relates to the builder consumed and the
    /// injected command.
    spec fn spec_added(self, command: C, out: Self::Out) -> bool;

    /// Appends the command's effect, or reports the builder-level failure.
    /// Injection validates nothing itself: it succeeds exactly when the
    /// builder accepts a new command.
    fn add(self, command: C) -> (r: Result<Self::Out, CommandAddError>)
        ensures
            r matches Ok(out) ==> self.spec_can_add(command) && self.spec_added(command, out),
            r is Err ==> !self.spec_can_add(command),
    ;
}

impl<'a, P, B, D> AddCommand<&'a CmdUpdateBuffer<B, D>> for CommandBufferBuilder<P> where
    P: CommandPool,
    B: BufferAccess,
    D: BufferContents,
 {
    type Out = CommandBufferBuilder<P>;

    open spec fn spec_can_add(self, command: &'a CmdUpdateBuffer<B, D>) -> bool {
        self.spec_recording()
    }

    open spec fn spec_added(
        self,
        command: &'a CmdUpdateBuffer<B, D>,
        out: CommandBufferBuilder<P>,
    ) -> bool {
        &&& out.spec_commands() == self.spec_commands().push(record_of(*command))
        &&& out.spec_recording() == self.spec_recording()
        &&& out.spec_device() == self.spec_device()
    }

    fn add(self, command: &'a CmdUpdateBuffer<B, D>) -> (r: Result<
        CommandBufferBuilder<P>,
        CommandAddError,
    >) {
        if !self.recording {
            return Err(CommandAddError::NotRecording);
        }
        let ghost pre = self.commands@;
        let rec = RecordedUpdate {
            buffer_handle: command.buffer_handle(),
            offset: command.offset(),
            size: command.size(),
            bytes: command.data().to_bytes(),
        };
        let ghost rec_ghost = rec;
        let mut out = self;
        out.commands.push(rec);
        proof {
            let f = |r: RecordedUpdate| r.repr();
            pre.lemma_push_map_commute(f, rec_ghost);
            assert(out.spec_commands() =~= pre.map_values(f).push(rec_ghost.repr()));
            assert(rec_ghost.repr() == record_of(*command));
        }
        Ok(out)
    }
}

/// Law: injecting into a builder whose session is open appends exactly one
/// record — the command's captured handle, offset and size with the
/// payload's bytes — keeps every earlier record in place, and leaves the
/// session open, so further injections chain.
pub proof fn lemma_injection_appends_one<P: CommandPool, B: BufferAccess, D: BufferContents>(
    b: CommandBufferBuilder<P>,
    c: &CmdUpdateBuffer<B, D>,
    out: CommandBufferBuilder<P>,
)
    requires
        b.spec_can_add(c),
        b.spec_added(c, out),
    ensures
        out.spec_commands().len() == b.spec_commands().len() + 1,
        out.spec_commands().last() == record_of(*c),
        forall|i: int|
            0 <= i < b.spec_commands().len() ==> out.spec_commands()[i] == b.spec_commands()[i],
        out.spec_recording(),
        out.spec_device() == b.spec_device(),
{
}

} // verus!
