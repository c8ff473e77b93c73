use tricore_probe::drain::{plan_drain, BufferParameters, DrainPlan, ReadRequest, RingBufferReader};
use tricore_probe::{ProbeError, ProtocolViolation};

fn buffer(address: u32, size: u32) -> BufferParameters {
    BufferParameters { address, size }
}

#[test]
fn equal_indices_are_a_no_op() {
    let b = buffer(0x1000, 64);
    assert_eq!(plan_drain(17, 17, &b), Ok(DrainPlan::UpToDate));
    assert_eq!(plan_drain(0, 0, &b), Ok(DrainPlan::UpToDate));
    assert_eq!(plan_drain(64, 64, &b), Ok(DrainPlan::UpToDate));
}

#[test]
fn contiguous_read_has_exact_range() {
    let b = buffer(0x1000, 64);
    let plan = plan_drain(10, 20, &b).unwrap();
    assert_eq!(
        plan,
        DrainPlan::Contiguous { chunk: ReadRequest { address: 0x1000 + 10, length: 10 } }
    );
}

#[test]
fn contiguous_read_up_to_full_buffer() {
    let b = buffer(0x2000, 64);
    let plan = plan_drain(0, 64, &b).unwrap();
    assert_eq!(
        plan,
        DrainPlan::Contiguous { chunk: ReadRequest { address: 0x2000, length: 64 } }
    );
}

#[test]
fn wrapped_read_goes_end_then_start() {
    let b = buffer(0x1000, 64);
    let plan = plan_drain(60, 10, &b).unwrap();
    assert_eq!(
        plan,
        DrainPlan::Wrapped {
            end_chunk: ReadRequest { address: 0x1000 + 60, length: 4 },
            start_chunk: Some(ReadRequest { address: 0x1000, length: 10 }),
        }
    );
    // The two reads together cover (size - read_index) + write_index bytes.
    match plan {
        DrainPlan::Wrapped { end_chunk, start_chunk } => {
            assert_eq!(end_chunk.length + start_chunk.unwrap().length, (64 - 60) + 10);
        }
        _ => unreachable!(),
    }
}

#[test]
fn wrapped_read_with_zero_write_index_skips_start_chunk() {
    let b = buffer(0x1000, 64);
    let plan = plan_drain(60, 0, &b).unwrap();
    assert_eq!(
        plan,
        DrainPlan::Wrapped {
            end_chunk: ReadRequest { address: 0x1000 + 60, length: 4 },
            start_chunk: None,
        }
    );
}

#[test]
fn out_of_bounds_write_index_is_a_protocol_error() {
    let b = buffer(0x1000, 64);
    assert_eq!(
        plan_drain(0, 65, &b),
        Err(ProbeError::Protocol(ProtocolViolation::WriteIndexOutOfBounds))
    );
    assert_eq!(
        plan_drain(10, 0xFFFF_FFFF, &b),
        Err(ProbeError::Protocol(ProtocolViolation::WriteIndexOutOfBounds))
    );
}

#[test]
fn drain_is_idempotent_after_commit() {
    let mut reader = RingBufferReader::new(buffer(0x1000, 64));
    let plan = reader.plan(20).unwrap();
    assert!(matches!(plan, DrainPlan::Contiguous { .. }));
    reader.commit(20);
    assert_eq!(reader.read_index, 20);
    // Unchanged write index: the next drain is a no-op.
    assert_eq!(reader.plan(20), Ok(DrainPlan::UpToDate));
}

#[test]
fn wrapped_drain_scenario_returns_end_and_start_bytes() {
    // Ring buffer of 64 bytes at target address 64; the host acknowledged 60
    // bytes and the device wrote 10 more, wrapping around.
    let mut target = vec![0u8; 128];
    for (i, slot) in target.iter_mut().enumerate() {
        *slot = i as u8;
    }
    let mut reader = RingBufferReader { buffer: buffer(64, 64), read_index: 60 };
    let plan = reader.plan(10).unwrap();
    let mut drained = Vec::new();
    match plan {
        DrainPlan::Wrapped { end_chunk, start_chunk } => {
            let s = end_chunk.address as usize;
            drained.extend_from_slice(&target[s..s + end_chunk.length as usize]);
            let start_chunk = start_chunk.unwrap();
            let s = start_chunk.address as usize;
            drained.extend_from_slice(&target[s..s + start_chunk.length as usize]);
        }
        _ => unreachable!(),
    }
    reader.commit(10);
    // target[64+60 .. 64+64) ++ target[64 .. 64+10): 4 + 10 = 14 bytes.
    let mut expected: Vec<u8> = (124u8..128).collect();
    expected.extend(64u8..74);
    assert_eq!(drained, expected);
    assert_eq!(drained.len(), 14);
    assert_eq!(reader.read_index, 10);
}

#[test]
fn descriptor_decodes_little_endian() {
    let bytes = vec![0x40, 0x00, 0x00, 0x00, 0x80, 0x00, 0x00, 0x00];
    let params = BufferParameters::from_bytes(&bytes);
    assert_eq!(params.address, 0x40);
    assert_eq!(params.size, 0x80);
    let bytes = vec![0x78, 0x56, 0x34, 0x12, 0x21, 0x43, 0x65, 0x07];
    let params = BufferParameters::from_bytes(&bytes);
    assert_eq!(params.address, 0x1234_5678);
    assert_eq!(params.size, 0x0765_4321);
}
