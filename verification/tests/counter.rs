use borsh::BorshDeserialize;
use counter_program::errors::CounterError;
use counter_program::instructions::{CounterInstructions, UpdateArgs};
use counter_program::processor::{apply, process_instruction};
use counter_program::state::CounterAccount;

#[test]
fn test_counter() {
    let mut data: Vec<u8> = vec![0; 4];

    let mut increment_instruction_data: Vec<u8> = vec![0];
    let mut decrement_instruction_data: Vec<u8> = vec![1];
    let mut update_instruction_data: Vec<u8> = vec![2];
    let reset_instruction_data: Vec<u8> = vec![3];

    let increment_value = 40u32;
    increment_instruction_data.extend_from_slice(&increment_value.to_le_bytes());
    process_instruction(&mut data, &increment_instruction_data).unwrap();
    assert_eq!(CounterAccount::try_from_slice(&data).unwrap().counter, 40);

    let decrement_value = 20u32;
    decrement_instruction_data.extend_from_slice(&decrement_value.to_le_bytes());
    process_instruction(&mut data, &decrement_instruction_data).unwrap();
    assert_eq!(CounterAccount::try_from_slice(&data).unwrap().counter, 20);

    let update_value = 33u32;
    update_instruction_data.extend_from_slice(&update_value.to_le_bytes());
    process_instruction(&mut data, &update_instruction_data).unwrap();
    assert_eq!(CounterAccount::try_from_slice(&data).unwrap().counter, 33);

    process_instruction(&mut data, &reset_instruction_data).unwrap();
    assert_eq!(CounterAccount::try_from_slice(&data).unwrap().counter, 0);
}

#[test]
fn test_apply_reset_always_zero() {
    for x in [0u32, 1, 33, 12345, u32::MAX] {
        assert_eq!(apply(x, &CounterInstructions::Reset), 0);
    }
}

#[test]
fn test_apply_update_idempotent() {
    let op = CounterInstructions::Update(UpdateArgs { value: 77 });
    let once = apply(5, &op);
    assert_eq!(once, 77);
    assert_eq!(apply(once, &op), 77);
}

#[test]
fn test_apply_decrement_floor() {
    let op = CounterInstructions::Decrement(UpdateArgs { value: 50 });
    assert_eq!(apply(10, &op), 0);
    let op = CounterInstructions::Decrement(UpdateArgs { value: 20 });
    assert_eq!(apply(40, &op), 20);
    let op = CounterInstructions::Decrement(UpdateArgs { value: 40 });
    assert_eq!(apply(40, &op), 0);
}

#[test]
fn test_apply_increment_zero_identity() {
    let op = CounterInstructions::Increment(UpdateArgs { value: 0 });
    assert_eq!(apply(7, &op), 7);
    assert_eq!(apply(u32::MAX, &op), u32::MAX);
}

#[test]
fn test_apply_increment_wraps() {
    let op = CounterInstructions::Increment(UpdateArgs { value: 1 });
    assert_eq!(apply(u32::MAX, &op), 0);
    let op = CounterInstructions::Increment(UpdateArgs { value: 5 });
    assert_eq!(apply(u32::MAX, &op), 4);
    assert_eq!(apply(40, &op), 45);
}

#[test]
fn test_pack_unpack_round_trip() {
    let ops = [
        CounterInstructions::Increment(UpdateArgs { value: 0 }),
        CounterInstructions::Increment(UpdateArgs { value: 40 }),
        CounterInstructions::Decrement(UpdateArgs { value: u32::MAX }),
        CounterInstructions::Update(UpdateArgs { value: 33 }),
        CounterInstructions::Reset,
    ];
    for op in ops {
        let bytes = op.pack();
        assert_eq!(CounterInstructions::unpack(&bytes), Ok(op));
    }
}

#[test]
fn test_unpack_empty_buffer() {
    assert_eq!(
        CounterInstructions::unpack(&[]),
        Err(CounterError::EmptyInput)
    );
}

#[test]
fn test_unpack_unknown_tag() {
    assert_eq!(
        CounterInstructions::unpack(&[99, 1, 2, 3, 4]),
        Err(CounterError::UnknownOperation)
    );
    assert_eq!(
        CounterInstructions::unpack(&[4]),
        Err(CounterError::UnknownOperation)
    );
}

#[test]
fn test_unpack_malformed_operand() {
    assert_eq!(
        CounterInstructions::unpack(&[0]),
        Err(CounterError::MalformedOperand)
    );
    assert_eq!(
        CounterInstructions::unpack(&[1, 1, 2, 3]),
        Err(CounterError::MalformedOperand)
    );
    assert_eq!(
        CounterInstructions::unpack(&[2, 1, 2, 3, 4, 5]),
        Err(CounterError::MalformedOperand)
    );
}

#[test]
fn test_unpack_update_buffer() {
    assert_eq!(
        CounterInstructions::unpack(&[2, 0x21, 0, 0, 0]),
        Ok(CounterInstructions::Update(UpdateArgs { value: 33 }))
    );
}

#[test]
fn test_unpack_reset_ignores_trailing_bytes() {
    assert_eq!(
        CounterInstructions::unpack(&[3, 9, 9, 9]),
        Ok(CounterInstructions::Reset)
    );
}

#[test]
fn test_state_round_trip() {
    let account = CounterAccount { counter: 123456 };
    let bytes = account.serialize();
    assert_eq!(bytes.len(), 4);
    assert_eq!(CounterAccount::try_from_slice(&bytes), Ok(account));
}

#[test]
fn test_state_corrupt_lengths() {
    assert_eq!(
        CounterAccount::try_from_slice(&[]),
        Err(CounterError::CorruptState)
    );
    assert_eq!(
        CounterAccount::try_from_slice(&[1, 2, 3]),
        Err(CounterError::CorruptState)
    );
    assert_eq!(
        CounterAccount::try_from_slice(&[1, 2, 3, 4, 5]),
        Err(CounterError::CorruptState)
    );
}

#[test]
fn test_wire_format_matches_borsh() {
    // The persisted record is the same bytes borsh writes for a `u32`.
    let account = CounterAccount { counter: 33 };
    assert_eq!(account.serialize(), borsh::to_vec(&33u32).unwrap());

    // The operand bytes after the tag are the same bytes borsh reads.
    let op = CounterInstructions::Update(UpdateArgs { value: 0xDEAD_BEEF });
    let bytes = op.pack();
    assert_eq!(bytes[0], 2);
    assert_eq!(u32::try_from_slice(&bytes[1..]).unwrap(), 0xDEAD_BEEF);
    assert_eq!(&bytes[1..], borsh::to_vec(&0xDEAD_BEEFu32).unwrap());
}

#[test]
fn test_process_errors_leave_state_untouched() {
    let mut data: Vec<u8> = vec![7, 0, 0, 0];

    assert_eq!(
        process_instruction(&mut data, &[]),
        Err(CounterError::EmptyInput)
    );
    assert_eq!(data, vec![7, 0, 0, 0]);

    assert_eq!(
        process_instruction(&mut data, &[9]),
        Err(CounterError::UnknownOperation)
    );
    assert_eq!(data, vec![7, 0, 0, 0]);

    assert_eq!(
        process_instruction(&mut data, &[0, 1, 2]),
        Err(CounterError::MalformedOperand)
    );
    assert_eq!(data, vec![7, 0, 0, 0]);

    let mut short: Vec<u8> = vec![7, 0, 0];
    assert_eq!(
        process_instruction(&mut short, &[3]),
        Err(CounterError::CorruptState)
    );
    assert_eq!(short, vec![7, 0, 0]);
}
