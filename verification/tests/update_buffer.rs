use update_buffer::buffer::DeviceOwned;
use update_buffer::buffer::DeviceRef;
use update_buffer::buffer::RawBuffer;
use update_buffer::buffer::TypedRawBuffer;
use update_buffer::builder::AddCommand;
use update_buffer::builder::CommandAddError;
use update_buffer::builder::CommandBufferBuilder;
use update_buffer::builder::StandardCommandPool;
use update_buffer::command::CmdUpdateBuffer;
use update_buffer::command::CmdUpdateBufferError;

fn resource(handle: u64, offset: u64, size: u64, transfer_dest: bool) -> RawBuffer {
    RawBuffer { handle, offset, size, transfer_dest, device: DeviceRef { id: 1 } }
}

fn payload(len: usize) -> Vec<u8> {
    let mut out: Vec<u8> = Vec::new();
    let mut i: usize = 0;
    while i < len {
        out.push((i % 251) as u8);
        i += 1;
    }
    out
}

#[test]
fn construction_succeeds_and_injection_records_offset_and_size() {
    let cmd = CmdUpdateBuffer::unchecked_type(resource(7, 0, 64, true), payload(64))
        .expect("construction must succeed");
    assert_eq!(cmd.buffer_handle(), 7);
    assert_eq!(cmd.offset(), 0);
    assert_eq!(cmd.size(), 64);

    let builder = CommandBufferBuilder::start(StandardCommandPool, DeviceRef { id: 1 });
    let builder = builder.add(&cmd).expect("injection must succeed");
    assert_eq!(builder.num_commands(), 1);
    let rec = builder.command_at(0);
    assert_eq!(rec.buffer_handle, 7);
    assert_eq!(rec.offset, 0);
    assert_eq!(rec.size, 64);
    assert_eq!(rec.bytes, payload(64));
}

#[test]
fn construction_succeeds_at_exact_size_ceiling() {
    let r = CmdUpdateBuffer::unchecked_type(resource(1, 0, 65536, true), payload(0));
    assert!(r.is_ok());
    assert_eq!(r.unwrap().size(), 65536);
}

#[test]
fn oversize_rejected_with_data_too_large() {
    let r = CmdUpdateBuffer::unchecked_type(resource(1, 0, 65540, true), payload(0));
    assert_eq!(r.err().unwrap(), CmdUpdateBufferError::DataTooLarge);
}

#[test]
fn misaligned_offset_rejected_with_wrong_alignment() {
    let r = CmdUpdateBuffer::unchecked_type(resource(1, 2, 64, true), payload(64));
    assert_eq!(r.err().unwrap(), CmdUpdateBufferError::WrongAlignment);
}

#[test]
fn misaligned_size_rejected_with_wrong_alignment() {
    let r = CmdUpdateBuffer::unchecked_type(resource(1, 0, 66, true), payload(66));
    assert_eq!(r.err().unwrap(), CmdUpdateBufferError::WrongAlignment);
}

#[test]
fn misaligned_offset_and_size_rejected_with_wrong_alignment() {
    let r = CmdUpdateBuffer::unchecked_type(resource(1, 2, 66, true), payload(66));
    assert_eq!(r.err().unwrap(), CmdUpdateBufferError::WrongAlignment);
}

#[test]
fn missing_usage_rejected_with_buffer_missing_usage() {
    let r = CmdUpdateBuffer::unchecked_type(resource(1, 0, 64, false), payload(64));
    assert_eq!(r.err().unwrap(), CmdUpdateBufferError::BufferMissingUsage);
}

#[test]
fn missing_usage_reported_before_alignment_and_size() {
    // Usage is checked first: even with a misaligned offset, a misaligned
    // size, and a size above the ceiling, the missing usage wins.
    let r = CmdUpdateBuffer::unchecked_type(resource(1, 2, 65541, false), payload(0));
    assert_eq!(r.err().unwrap(), CmdUpdateBufferError::BufferMissingUsage);
}

#[test]
fn misaligned_offset_reported_before_size_checks() {
    // With usage set, the offset check runs before the size cap: an offset
    // of 2 with an oversize resource still reports WrongAlignment.
    let r = CmdUpdateBuffer::unchecked_type(resource(1, 2, 65540, true), payload(0));
    assert_eq!(r.err().unwrap(), CmdUpdateBufferError::WrongAlignment);
}

#[test]
fn accessors_are_stable_across_repeated_calls() {
    let cmd = CmdUpdateBuffer::unchecked_type(resource(11, 8, 32, true), payload(32))
        .expect("construction must succeed");
    assert_eq!(cmd.buffer().handle, 11);
    assert_eq!(cmd.buffer().handle, 11);
    assert_eq!(cmd.buffer_handle(), cmd.buffer_handle());
    assert_eq!(cmd.offset(), cmd.offset());
    assert_eq!(cmd.size(), cmd.size());
    assert_eq!(cmd.buffer_handle(), 11);
    assert_eq!(cmd.offset(), 8);
    assert_eq!(cmd.size(), 32);
}

#[test]
fn typed_construction_via_new() {
    let typed: TypedRawBuffer<Vec<u8>> = TypedRawBuffer::new(resource(3, 4, 16, true));
    let cmd = CmdUpdateBuffer::new(typed, payload(16)).expect("construction must succeed");
    assert_eq!(cmd.buffer_handle(), 3);
    assert_eq!(cmd.offset(), 4);
    assert_eq!(cmd.size(), 16);
}

#[test]
fn typed_construction_via_from_access() {
    let typed: TypedRawBuffer<Vec<u8>> = TypedRawBuffer::new(resource(5, 0, 12, true));
    let cmd = CmdUpdateBuffer::from_access(typed, payload(12)).expect("construction must succeed");
    assert_eq!(cmd.buffer_handle(), 5);
    assert_eq!(cmd.size(), 12);
}

#[test]
fn typed_construction_reports_same_errors() {
    let typed: TypedRawBuffer<Vec<u8>> = TypedRawBuffer::new(resource(5, 0, 12, false));
    let r = CmdUpdateBuffer::from_access(typed, payload(12));
    assert_eq!(r.err().unwrap(), CmdUpdateBufferError::BufferMissingUsage);
}

#[test]
fn injection_chains_and_keeps_record_order() {
    let first = CmdUpdateBuffer::unchecked_type(resource(21, 0, 8, true), payload(8))
        .expect("construction must succeed");
    let second = CmdUpdateBuffer::unchecked_type(resource(22, 4, 4, true), vec![9u8, 9, 9, 9])
        .expect("construction must succeed");

    let builder = CommandBufferBuilder::start(StandardCommandPool, DeviceRef { id: 4 });
    let builder = builder.add(&first).expect("first injection must succeed");
    assert!(builder.is_recording());
    let builder = builder.add(&second).expect("second injection must succeed");

    assert_eq!(builder.num_commands(), 2);
    assert_eq!(builder.command_at(0).buffer_handle, 21);
    assert_eq!(builder.command_at(0).offset, 0);
    assert_eq!(builder.command_at(0).size, 8);
    assert_eq!(builder.command_at(0).bytes, payload(8));
    assert_eq!(builder.command_at(1).buffer_handle, 22);
    assert_eq!(builder.command_at(1).offset, 4);
    assert_eq!(builder.command_at(1).size, 4);
    assert_eq!(builder.command_at(1).bytes, vec![9u8, 9, 9, 9]);
}

#[test]
fn injection_after_end_fails_and_keeps_stream() {
    let cmd = CmdUpdateBuffer::unchecked_type(resource(2, 0, 4, true), payload(4))
        .expect("construction must succeed");
    let builder = CommandBufferBuilder::start(StandardCommandPool, DeviceRef { id: 2 });
    let builder = builder.add(&cmd).expect("injection must succeed");
    let ended = builder.end();
    assert!(!ended.is_recording());
    assert_eq!(ended.num_commands(), 1);
    let r = ended.add(&cmd);
    assert_eq!(r.err().unwrap(), CommandAddError::NotRecording);
}

#[test]
fn command_reports_device_of_its_resource() {
    let raw = RawBuffer { handle: 1, offset: 0, size: 4, transfer_dest: true, device: DeviceRef { id: 9 } };
    let cmd = CmdUpdateBuffer::unchecked_type(raw, payload(4)).expect("construction must succeed");
    assert_eq!(cmd.device(), DeviceRef { id: 9 });
    let builder = CommandBufferBuilder::start(StandardCommandPool, DeviceRef { id: 9 });
    assert_eq!(builder.device(), DeviceRef { id: 9 });
}

#[test]
fn error_descriptions_match_the_error_kind() {
    assert_eq!(
        CmdUpdateBufferError::BufferMissingUsage.description(),
        "the transfer destination usage must be enabled on the buffer"
    );
    assert_eq!(
        CmdUpdateBufferError::WrongAlignment.description(),
        "the offset or size are not aligned to 4 bytes"
    );
    assert_eq!(CmdUpdateBufferError::DataTooLarge.description(), "data is too large");
}

#[test]
fn payload_longer_than_size_is_kept_whole_in_the_record() {
    // The payload's own length is not cross-checked against the resource's
    // size; the record keeps the bytes as given and the validated size.
    let cmd = CmdUpdateBuffer::unchecked_type(resource(6, 0, 8, true), payload(16))
        .expect("construction must succeed");
    let builder = CommandBufferBuilder::start(StandardCommandPool, DeviceRef { id: 1 });
    let builder = builder.add(&cmd).expect("injection must succeed");
    assert_eq!(builder.command_at(0).size, 8);
    assert_eq!(builder.command_at(0).bytes, payload(16));
}
