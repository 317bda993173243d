use vstd::prelude::*;
use crate::word::Word;

verus! {

/// What a sandboxed run of a job's code produced.
pub struct ExecutionResponse {
    pub output: String,
    pub total_time: u64,
    pub error_code: u8,
}

/// A signed execution output of a job.
pub struct JobOutput {
    pub id: Word,
    pub signature: Vec<u8>,
    pub execution_response: ExecutionResponse,
    pub sign_timestamp: Word,
}

/// A message on the outcome channel: an execution output, or the id of a
/// job whose deadline passed.
pub struct JobResponse {
    pub job_output: Option<JobOutput>,
    pub timeout_response: Option<Word>,
}

/// A call on the jobs contract.
pub enum ChainCall {
    SubmitOutput {
        signature: Vec<u8>,
        job_id: Word,
        output: String,
        total_time: u64,
        error_code: u8,
        sign_timestamp: Word,
    },
    SlashOnExecutionTimeout { job_id: Word },
}

/// The call that a message asks for: the output's submission where it carries
/// one, else the slash for the timed-out job, else none.
pub open spec fn call_for(resp: JobResponse) -> Option<ChainCall> {
    match resp.job_output {
        Some(o) => Some(ChainCall::SubmitOutput {
            signature: o.signature,
            job_id: o.id,
            output: o.execution_response.output,
            total_time: o.execution_response.total_time,
            error_code: o.execution_response.error_code,
            sign_timestamp: o.sign_timestamp,
        }),
        None => match resp.timeout_response {
            Some(id) => Some(ChainCall::SlashOnExecutionTimeout { job_id: id }),
            None => None,
        },
    }
}

/// Turns an outcome message into the chain call that the response dispatcher sends.
pub fn chain_call_for(resp: JobResponse) -> (r: Option<ChainCall>)
    ensures
        r == call_for(resp),
{
    match resp.job_output {
        Some(o) => Some(ChainCall::SubmitOutput {
            signature: o.signature,
            job_id: o.id,
            output: o.execution_response.output,
            total_time: o.execution_response.total_time,
            error_code: o.execution_response.error_code,
            sign_timestamp: o.sign_timestamp,
        }),
        None => match resp.timeout_response {
            Some(id) => Some(ChainCall::SlashOnExecutionTimeout { job_id: id }),
            None => None,
        },
    }
}

} // verus!
