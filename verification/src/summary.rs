//! Rendering of the execution summary: cycle count, gas used and contract
//! count as labeled lines, and an emphasized failure line when the
//! execution reverted.

use vstd::prelude::*;

use crate::hexfmt::{dec_of, dec_string};

verus! {

/// The summary of one execution.
pub struct ExecutionSummary {
    pub cycles_used: u32,
    pub computational_gas_used: u32,
    pub contracts_used: usize,
    pub revert_reason: Option<String>,
}

/// The rendered summary. `revert_line` is present exactly when the
/// execution carried a revert reason, and is the one failure-emphasized
/// line.
pub struct RenderedSummary {
    pub cycles_line: String,
    pub gas_line: String,
    pub contracts_line: String,
    pub revert_line: Option<String>,
}

/// Renders the execution summary.
pub fn print_vm_details(result: &ExecutionSummary) -> (r: RenderedSummary)
    ensures
        r.cycles_line@ == "Cycles Used: "@ + dec_of(result.cycles_used as nat),
        r.gas_line@ == "Computation Gas Used: "@ + dec_of(result.computational_gas_used as nat),
        r.contracts_line@ == "Contracts Used: "@ + dec_of(result.contracts_used as nat),
        match (r.revert_line, result.revert_reason) {
            (Some(l), Some(reason)) => l@ == "[!] Revert Reason: "@ + reason@,
            (None, None) => true,
            _ => false,
        },
{
    let mut cycles_line = String::from_str("Cycles Used: ");
    let c = dec_string(result.cycles_used as u64);
    cycles_line.append(c.as_str());
    let mut gas_line = String::from_str("Computation Gas Used: ");
    let g = dec_string(result.computational_gas_used as u64);
    gas_line.append(g.as_str());
    let mut contracts_line = String::from_str("Contracts Used: ");
    let n = dec_string(result.contracts_used as u64);
    contracts_line.append(n.as_str());
    let revert_line = match &result.revert_reason {
        Some(reason) => {
            let mut l = String::from_str("[!] Revert Reason: ");
            l.append(reason.as_str());
            Some(l)
        },
        None => None,
    };
    RenderedSummary { cycles_line, gas_line, contracts_line, revert_line }
}

} // verus!
