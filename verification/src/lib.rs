//! A guarded decode entry point: deserialize a binary payload into a typed
//! value while a caller-fixed byte budget caps how much the decode engine may
//! read or allocate, so that an attacker-controlled payload (for example an
//! instruction's data) cannot drive unbounded allocation during
//! deserialization. Every engine failure is collapsed into the single error
//! signal `InstructionError::InvalidInstructionData`.

use vstd::prelude::*;

verus! {

use solana_instruction_error::InstructionError;
use bincode::error::DecodeError;

#[verifier::external_type_specification]
#[verifier::external_body]
pub struct ExInstructionError(InstructionError);

#[verifier::external_type_specification]
#[verifier::external_body]
pub struct ExDecodeError(DecodeError);

/// What collapsing an engine outcome into one error signal yields: a decoded
/// value passes through unchanged, and any engine failure, whatever its kind,
/// is replaced by `err`.
pub open spec fn collapsed<T>(
    engine: Result<T, DecodeError>,
    err: InstructionError,
) -> Result<T, InstructionError> {
    match engine {
        Ok(value) => Ok(value),
        Err(_) => Err(err),
    }
}

/// Determinism of the collapse: what `normalize_decode_result` returns is a
/// function of the engine outcome and the error signal alone, so equal inputs
/// always collapse to equal outcomes. This speaks of the collapse only; it
/// says nothing of how the engine arrives at its outcome.
pub proof fn lemma_collapse_deterministic<T>(
    first: Result<T, DecodeError>,
    second: Result<T, DecodeError>,
    first_err: InstructionError,
    second_err: InstructionError,
)
    requires
        first == second,
        first_err == second_err,
    ensures
        collapsed(first, first_err) == collapsed(second, second_err),
{
}

/// Relies on bincode::serde::decode_from_slice under bincode::config::legacy
/// with fixed-width integer encoding and a byte budget of `L`: the engine
/// decodes a value of `T` starting at the front of `bytes`, ignores any bytes
/// past what `T`'s layout consumes, and reports an error rather than read or
/// allocate more than `L` bytes of logical content. The consumed-byte count
/// it reports is discarded here.
#[verifier::external_body]
fn decode_from_slice_limited<T, const L: usize>(bytes: &[u8]) -> Result<T, DecodeError>
    where
        T: serde_core::de::DeserializeOwned,
{
    let config = bincode::config::legacy()
        .with_limit::<L>()
        .with_fixed_int_encoding();
    bincode::serde::decode_from_slice(bytes, config).map(|(value, _)| value)
}

/// The one error signal this module ever reports, given a name so that
/// contracts can speak of its value: `invalid_signal(0)` is the value of
/// `InstructionError::InvalidInstructionData`. The parameter is only a tag;
/// nothing more is assumed of the name.
pub uninterp spec fn invalid_signal(which: int) -> InstructionError;

/// Relies on solana_instruction_error::InstructionError:
/// `InvalidInstructionData` is its variant that reports a malformed or
/// oversized instruction payload. Contracts refer to the returned value as
/// `invalid_signal(0)`.
#[verifier::external_body]
fn invalid_instruction_data() -> (r: InstructionError)
    ensures
        r == invalid_signal(0),
{
    InstructionError::InvalidInstructionData
}

/// Collapse an engine outcome into the module's one error signal. The
/// collapse is deliberate and total: a decoded value is returned unchanged,
/// and every engine failure, whichever kind the engine distinguished, is
/// replaced by `err`.
pub fn normalize_decode_result<T>(
    engine: Result<T, DecodeError>,
    err: InstructionError,
) -> (out: Result<T, InstructionError>)
    ensures
        out == collapsed(engine, err),
{
    match engine {
        Ok(value) => Ok(value),
        Err(_) => Err(err),
    }
}

/// Deserialize with a limit based on the maximum amount of data a program can
/// expect to get. This function should be used in place of direct
/// deserialization to help prevent OOM errors: the budget `L` is enforced by
/// the decode engine while it reads, never derived from the untrusted input.
/// Whether a value of `T` can be decoded from `bytes` within `L` bytes is
/// decided by the engine; every failure it reports comes back as the one
/// signal `InstructionError::InvalidInstructionData`, named `invalid_signal(0)`
/// in contracts.
pub fn limited_deserialize<T, const L: usize>(
    instruction_data: &[u8],
) -> (result: Result<T, InstructionError>)
    where
        T: serde_core::de::DeserializeOwned,
    ensures
        result matches Err(e) ==> e == invalid_signal(0),
{
    let engine = decode_from_slice_limited::<T, L>(instruction_data);
    normalize_decode_result(engine, invalid_instruction_data())
}

} // verus!
