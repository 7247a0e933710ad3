use crate::errors::CounterError;
use crate::instructions::{CounterInstructions, UpdateArgs};
use crate::state::CounterAccount;
use vstd::prelude::*;

verus! {

/// The single-step state transition: the next counter value for a current
/// value and a decoded operation. Total: every input has a defined output.
///
/// `Increment` adds with wrapping (modulo 2^32) semantics; `Decrement`
/// saturates at zero rather than going negative or wrapping; `Update`
/// overwrites the counter; `Reset` drives it to zero.
pub open spec fn spec_apply(current: u32, op: CounterInstructions) -> u32 {
    match op {
        CounterInstructions::Increment(args) => if current + args.value > u32::MAX {
            (current + args.value - 0x1_0000_0000) as u32
        } else {
            (current + args.value) as u32
        },
        CounterInstructions::Decrement(args) => if args.value > current {
            0u32
        } else {
            (current - args.value) as u32
        },
        CounterInstructions::Update(args) => args.value,
        CounterInstructions::Reset => 0u32,
    }
}

/// Apply one operation to the current counter value.
pub fn apply(current: u32, op: &CounterInstructions) -> (r: u32)
    ensures
        r == spec_apply(current, *op),
{
    match op {
        CounterInstructions::Increment(args) => current.wrapping_add(args.value),
        CounterInstructions::Decrement(args) => {
            if args.value > current {
                0
            } else {
                current - args.value
            }
        },
        CounterInstructions::Update(args) => args.value,
        CounterInstructions::Reset => 0,
    }
}

/// What one full invocation does to a state region, for every state region
/// and every instruction buffer: decode the instruction, then read the
/// counter record, then apply the transition and re-encode. A decode
/// failure is reported before the state region is even examined.
pub open spec fn spec_process(state: Seq<u8>, instruction_data: Seq<u8>) -> Result<
    Seq<u8>,
    CounterError,
> {
    match CounterInstructions::spec_unpack(instruction_data) {
        Err(e) => Err(e),
        Ok(op) => match CounterAccount::spec_try_from_slice(state) {
            Err(e) => Err(e),
            Ok(account) => Ok(
                (CounterAccount { counter: spec_apply(account.counter, op) }).spec_serialize(),
            ),
        },
    }
}

/// Process one invocation: decode `instruction_data`, read the counter from
/// the state region, apply the transition, and write the new counter back
/// into the region in the same layout.
///
/// On any failure the state region is left untouched and the error is
/// returned; the region is only overwritten after both the decode and the
/// state read have succeeded.
pub fn process_instruction(state: &mut Vec<u8>, instruction_data: &[u8]) -> (r: Result<
    (),
    CounterError,
>)
    ensures
        spec_process(old(state)@, instruction_data@) matches Ok(new_state) ==> (r is Ok
            && final(state)@ == new_state),
        spec_process(old(state)@, instruction_data@) matches Err(e) ==> (r == Err::<
            (),
            CounterError,
        >(e) && final(state)@ == old(state)@),
{
    let op: CounterInstructions = match CounterInstructions::unpack(instruction_data) {
        Ok(op) => op,
        Err(e) => {
            return Err(e);
        },
    };
    let account: CounterAccount = match CounterAccount::try_from_slice(state.as_slice()) {
        Ok(account) => account,
        Err(e) => {
            return Err(e);
        },
    };
    let next = CounterAccount { counter: apply(account.counter, &op) };
    *state = next.serialize();
    Ok(())
}

/// Law: `Reset` always yields zero, whatever the counter held.
pub proof fn lemma_reset_yields_zero(x: u32)
    ensures
        spec_apply(x, CounterInstructions::Reset) == 0,
{
}

/// Law: `Update` is idempotent. Applying `Update(v)` to the result of
/// applying `Update(v)` yields `v`, from any starting value.
pub proof fn lemma_update_idempotent(x: u32, v: u32)
    ensures
        spec_apply(
            spec_apply(x, CounterInstructions::Update((UpdateArgs { value: v }))),
            CounterInstructions::Update((UpdateArgs { value: v })),
        ) == v,
{
}

/// Law: `Decrement` floors at zero. When the operand exceeds the counter
/// the result is zero; otherwise it is the exact difference.
pub proof fn lemma_decrement_floor(x: u32, v: u32)
    ensures
        v > x ==> spec_apply(x, CounterInstructions::Decrement((UpdateArgs { value: v }))) == 0,
        v <= x ==> spec_apply(x, CounterInstructions::Decrement((UpdateArgs { value: v }))) == x
            - v,
{
}

/// Law: incrementing by zero leaves the counter unchanged.
pub proof fn lemma_increment_identity(x: u32)
    ensures
        spec_apply(x, CounterInstructions::Increment((UpdateArgs { value: 0 }))) == x,
{
}

/// Law: `Increment` adds modulo 2^32. This pins the wrapping overflow
/// policy: the sum is reduced modulo 2^32, never saturated.
pub proof fn lemma_increment_wraps(x: u32, v: u32)
    ensures
        spec_apply(x, CounterInstructions::Increment((UpdateArgs { value: v }))) == (x + v)
            % 0x1_0000_0000,
{
}

} // verus!
