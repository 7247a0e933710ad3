use crate::errors::CounterError;
use vstd::bytes::{
    lemma_auto_spec_u32_to_from_le_bytes, spec_u32_from_le_bytes, spec_u32_to_le_bytes,
    u32_from_le_bytes, u32_to_le_bytes,
};
use vstd::prelude::*;
use vstd::slice::slice_subrange;

verus! {

/// Discriminant byte of an `Increment` instruction.
pub const INCREMENT_TAG: u8 = 0;

/// Discriminant byte of a `Decrement` instruction.
pub const DECREMENT_TAG: u8 = 1;

/// Discriminant byte of an `Update` instruction.
pub const UPDATE_TAG: u8 = 2;

/// Discriminant byte of a `Reset` instruction.
pub const RESET_TAG: u8 = 3;

/// Length of a full instruction that carries an operand: one tag byte
/// followed by a 4-byte little-endian `u32`.
pub const OPERAND_INSTRUCTION_LEN: usize = 5;

/// The operand carried by `Increment`, `Decrement` and `Update`.
#[derive(Debug, Clone, Copy, PartialEq, Eq, Structural)]
pub struct UpdateArgs {
    pub value: u32,
}

/// A decoded instruction: one of the four operations on the counter.
#[derive(Debug, Clone, Copy, PartialEq, Eq, Structural)]
pub enum CounterInstructions {
    Increment(UpdateArgs),
    Decrement(UpdateArgs),
    Update(UpdateArgs),
    Reset,
}

impl CounterInstructions {
    /// What `unpack` returns on every possible byte buffer: the wire format
    /// of an instruction is a tag byte, followed (for tags 0..=2) by exactly
    /// four little-endian operand bytes; trailing bytes after a `Reset` tag
    /// are ignored.
    pub open spec fn spec_unpack(input: Seq<u8>) -> Result<CounterInstructions, CounterError> {
        if input.len() == 0 {
            Err(CounterError::EmptyInput)
        } else if input[0] == INCREMENT_TAG || input[0] == DECREMENT_TAG
            || input[0] == UPDATE_TAG {
            if input.len() == OPERAND_INSTRUCTION_LEN {
                let args = UpdateArgs { value: spec_u32_from_le_bytes(input.subrange(1, 5)) };
                if input[0] == INCREMENT_TAG {
                    Ok(CounterInstructions::Increment(args))
                } else if input[0] == DECREMENT_TAG {
                    Ok(CounterInstructions::Decrement(args))
                } else {
                    Ok(CounterInstructions::Update(args))
                }
            } else {
                Err(CounterError::MalformedOperand)
            }
        } else if input[0] == RESET_TAG {
            Ok(CounterInstructions::Reset)
        } else {
            Err(CounterError::UnknownOperation)
        }
    }

    /// Decode a raw instruction buffer into a typed operation.
    ///
    /// Fails with `EmptyInput` on an empty buffer, with `UnknownOperation`
    /// on a tag outside 0..=3, and with `MalformedOperand` when a tag in
    /// 0..=2 is not followed by exactly four operand bytes.
    pub fn unpack(input: &[u8]) -> (r: Result<Self, CounterError>)
        ensures
            r == Self::spec_unpack(input@),
    {
        if input.len() == 0 {
            return Err(CounterError::EmptyInput);
        }
        let tag: u8 = input[0];
        if tag == INCREMENT_TAG || tag == DECREMENT_TAG || tag == UPDATE_TAG {
            if input.len() != OPERAND_INSTRUCTION_LEN {
                return Err(CounterError::MalformedOperand);
            }
            let operand: &[u8] = slice_subrange(input, 1, 5);
            let value: u32 = u32_from_le_bytes(operand);
            let args = UpdateArgs { value };
            if tag == INCREMENT_TAG {
                Ok(CounterInstructions::Increment(args))
            } else if tag == DECREMENT_TAG {
                Ok(CounterInstructions::Decrement(args))
            } else {
                Ok(CounterInstructions::Update(args))
            }
        } else if tag == RESET_TAG {
            Ok(CounterInstructions::Reset)
        } else {
            Err(CounterError::UnknownOperation)
        }
    }

    /// The byte encoding of an operation: its tag byte, followed by the
    /// 4-byte little-endian operand where the operation carries one.
    pub open spec fn spec_pack(self) -> Seq<u8> {
        match self {
            CounterInstructions::Increment(args) => seq![INCREMENT_TAG] + spec_u32_to_le_bytes(
                args.value,
            ),
            CounterInstructions::Decrement(args) => seq![DECREMENT_TAG] + spec_u32_to_le_bytes(
                args.value,
            ),
            CounterInstructions::Update(args) => seq![UPDATE_TAG] + spec_u32_to_le_bytes(
                args.value,
            ),
            CounterInstructions::Reset => seq![RESET_TAG],
        }
    }

    /// Encode an operation into the instruction wire format that `unpack`
    /// reads.
    pub fn pack(&self) -> (r: Vec<u8>)
        ensures
            r@ == self.spec_pack(),
    {
        let mut out: Vec<u8> = Vec::new();
        match self {
            CounterInstructions::Increment(args) => {
                out.push(INCREMENT_TAG);
                let mut operand: Vec<u8> = u32_to_le_bytes(args.value);
                out.append(&mut operand);
                proof {
                    assert(out@ =~= seq![INCREMENT_TAG] + spec_u32_to_le_bytes(args.value));
                }
            },
            CounterInstructions::Decrement(args) => {
                out.push(DECREMENT_TAG);
                let mut operand: Vec<u8> = u32_to_le_bytes(args.value);
                out.append(&mut operand);
                proof {
                    assert(out@ =~= seq![DECREMENT_TAG] + spec_u32_to_le_bytes(args.value));
                }
            },
            CounterInstructions::Update(args) => {
                out.push(UPDATE_TAG);
                let mut operand: Vec<u8> = u32_to_le_bytes(args.value);
                out.append(&mut operand);
                proof {
                    assert(out@ =~= seq![UPDATE_TAG] + spec_u32_to_le_bytes(args.value));
                }
            },
            CounterInstructions::Reset => {
                out.push(RESET_TAG);
                proof {
                    assert(out@ =~= seq![RESET_TAG]);
                }
            },
        }
        out
    }
}

/// Law: decoding inverts encoding. Every operation, packed into its wire
/// format and unpacked again, comes back unchanged.
pub proof fn lemma_unpack_pack(op: CounterInstructions)
    ensures
        CounterInstructions::spec_unpack(op.spec_pack()) == Ok::<
            CounterInstructions,
            CounterError,
        >(op),
{
    lemma_auto_spec_u32_to_from_le_bytes();
    match op {
        CounterInstructions::Increment(args) => {
            assert((seq![INCREMENT_TAG] + spec_u32_to_le_bytes(args.value)).subrange(1, 5)
                =~= spec_u32_to_le_bytes(args.value));
        },
        CounterInstructions::Decrement(args) => {
            assert((seq![DECREMENT_TAG] + spec_u32_to_le_bytes(args.value)).subrange(1, 5)
                =~= spec_u32_to_le_bytes(args.value));
        },
        CounterInstructions::Update(args) => {
            assert((seq![UPDATE_TAG] + spec_u32_to_le_bytes(args.value)).subrange(1, 5)
                =~= spec_u32_to_le_bytes(args.value));
        },
        CounterInstructions::Reset => {},
    }
}

/// Law: a non-empty buffer whose first byte is none of the four known tags
/// is always rejected as an unknown operation, whatever follows it.
pub proof fn lemma_unpack_unknown_tag(input: Seq<u8>)
    requires
        input.len() > 0,
        input[0] != INCREMENT_TAG,
        input[0] != DECREMENT_TAG,
        input[0] != UPDATE_TAG,
        input[0] != RESET_TAG,
    ensures
        CounterInstructions::spec_unpack(input) == Err::<CounterInstructions, CounterError>(
            CounterError::UnknownOperation,
        ),
{
}

} // verus!
