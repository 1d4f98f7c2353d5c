use crate::inputs::{InputError, Inputs, MultisigData};
use vstd::prelude::*;

verus! {

/// The authorization decision on a rotation request.
pub struct Program;

impl Program {
    /// Decodes the request's owner record, counts the distinct owners whose
    /// signatures over the new key match the slot they claim, and accepts
    /// when that count meets the record's threshold. On acceptance it returns
    /// the value to commit: the accepted new key.
    pub fn run(inputs: &Inputs) -> (r: Result<[u8; 32], InputError>)
        requires
            inputs.slots_in_range(),
        ensures
            r is Ok <==> inputs.is_authorized(),
            r matches Ok(commit) ==> commit == inputs.new_key,
            r matches Err(e) ==> e == InputError::ThresholdNotMet,
    {
        let data = MultisigData::from(&inputs.current_data);
        let verified_signers = data.verify_signatures(&inputs.new_key, inputs.signatures.as_slice());
        if verified_signers.len() >= data.threshold as usize {
            Ok(inputs.new_key)
        } else {
            Err(InputError::ThresholdNotMet)
        }
    }
}

} // verus!
