//! Dispatch of calls into contracts run natively by the Rust VM.
use vstd::prelude::*;

verus! {

/// Errors of the Rust VM.
#[derive(Clone, Debug, PartialEq, Eq)]
pub enum VmError {
    /// The named export does not take the number of inputs it was called with.
    IncorrectNumberOfInputs { name: String, num: usize },
}

/// The exports of a native contract that take no input besides the context
/// and give one output.
#[derive(Clone, Copy, Debug, PartialEq, Eq, Structural)]
pub enum ExportIn0Out1 {
    /// `receive`: the contract is sent funds.
    Receive,
}

/// The export that a call with no input names: only `receive` takes none;
/// any other name is refused as taking a different number of inputs.
pub fn export_in_0_out_1(name: &str) -> (r: Result<ExportIn0Out1, VmError>)
    ensures
        r is Ok <==> name@ == "receive"@,
        r matches Ok(e) ==> e == ExportIn0Out1::Receive,
        r matches Err(VmError::IncorrectNumberOfInputs { name: n, num }) ==> n@ == name@ && num
            == 0,
{
    let given = String::from_str(name);
    let receive = String::from_str("receive");
    if given == receive {
        Ok(ExportIn0Out1::Receive)
    } else {
        Err(VmError::IncorrectNumberOfInputs { name: given, num: 0 })
    }
}

} // verus!
