//! Shared helpers around the model gateway: verified string utilities,
//! prompt construction from a catalog function, and the gateway request with
//! its at-most-two-attempts retry policy.

use vstd::prelude::*;

use crate::llm::{Message, MessagePart, MessagePartText};
use crate::ports::{GatewayError, PipelineError, Ports};

verus! {

/// Character-for-character equality of two string slices; compares owned
/// strings because equality is specified on `String`.
pub fn str_eq(a: &str, b: &str) -> (r: bool)
    ensures
        r == (a@ == b@),
{
    let sa: String = a.to_owned();
    let sb: String = b.to_owned();
    sa == sb
}

/// A run of three backticks starts at position `k` of `s`.
pub open spec fn fence_at(s: Seq<char>, k: int) -> bool {
    &&& 0 <= k
    &&& k + 3 <= s.len()
    &&& s[k] == '`'
    &&& s[k + 1] == '`'
    &&& s[k + 2] == '`'
}

/// The text embeds a code-formatting fence (three consecutive backticks).
pub open spec fn has_code_fence(s: Seq<char>) -> bool {
    exists|k: int| fence_at(s, k)
}

/// Scans a string for a code-formatting fence.
pub fn contains_code_fence(s: &str) -> (r: bool)
    ensures
        r == has_code_fence(s@),
{
    let n = s.unicode_len();
    if n < 3 {
        proof {
            assert(forall|k: int| !fence_at(s@, k));
        }
        return false;
    }
    let mut i: usize = 0;
    while i < n - 2
        invariant
            3 <= n,
            n == s@.len(),
            i <= n - 2,
            forall|k: int| 0 <= k < i ==> !fence_at(s@, k),
        decreases n - i,
    {
        let c0 = s.get_char(i);
        let c1 = s.get_char(i + 1);
        let c2 = s.get_char(i + 2);
        if c0 == '`' && c1 == '`' && c2 == '`' {
            proof {
                assert(fence_at(s@, i as int));
            }
            return true;
        }
        i += 1;
    }
    proof {
        assert(forall|k: int| i <= k ==> !fence_at(s@, k));
    }
    false
}

/// The instruction string handed to the model gateway: the catalog function's
/// text, then the steering instruction, then the raw input.
pub open spec fn instruction_text(function_text: Seq<char>, func_input: Seq<char>) -> Seq<char> {
    "FUNCTION: "@ + function_text
        + "\n        INSTRUCTION: You are a function printer. You ONLY print the result of functions.\n        Nothing else. No commentary. Here is the input to the function: "@
        + func_input + ".\n        Print out what the function will return."@
}

/// Concatenates the pieces of the instruction string.
pub fn build_instruction(function_text: &str, func_input: &str) -> (r: String)
    ensures
        r@ == instruction_text(function_text@, func_input@),
{
    let mut r = String::from_str("FUNCTION: ");
    r.append(function_text);
    r.append(
        "\n        INSTRUCTION: You are a function printer. You ONLY print the result of functions.\n        Nothing else. No commentary. Here is the input to the function: ",
    );
    r.append(func_input);
    r.append(".\n        Print out what the function will return.");
    r
}

/// Builds the one-content, one-part prompt that embeds a catalog function's
/// text and the raw input into the steering instruction.
pub fn extend_ai_function<F: Fn(&str) -> &'static str>(ai_funct: F, func_input: &str) -> (msg:
    Message)
    requires
        call_requires(ai_funct, (func_input,)),
    ensures
        msg.contents@.len() == 1,
        msg.contents@[0].parts@.len() == 1,
        exists|function_text: &'static str|
            #[trigger] call_ensures(ai_funct, (func_input,), function_text)
                && msg.contents@[0].parts@[0].text@ == instruction_text(
                function_text@,
                func_input@,
            ),
{
    let ai_function_string: &'static str = ai_funct(func_input);
    let msg_text = build_instruction(ai_function_string, func_input);
    let mut parts: Vec<MessagePartText> = Vec::new();
    parts.push(MessagePartText { text: msg_text });
    let mut contents: Vec<MessagePart> = Vec::new();
    contents.push(MessagePart { parts });
    Message { contents }
}

/// The at-most-two-attempts policy over the attempts actually made: the
/// first attempt's text stands if it has one, a successful retry's text
/// stands otherwise, and a failed retry is fatal. The retry exists exactly
/// when the first attempt failed.
pub open spec fn retry_decision(
    first: Result<String, GatewayError>,
    retry: Option<Result<String, GatewayError>>,
) -> Result<String, PipelineError> {
    match first {
        Ok(text) => Ok(text),
        Err(first_error) => match retry {
            Some(Ok(text)) => Ok(text),
            Some(Err(retry_error)) => Err(PipelineError::ModelUnavailable(retry_error)),
            None => Err(PipelineError::ModelUnavailable(first_error)),
        },
    }
}

/// A gateway that fails once and then succeeds yields the same result as one
/// that succeeds immediately with the same text.
pub proof fn lemma_retry_masks_single_failure(text: String, e: GatewayError)
    ensures
        retry_decision(Err(e), Some(Ok(text))) == retry_decision(Ok(text), None),
        retry_decision(Ok(text), None) == Ok::<String, PipelineError>(text),
{
}

/// Two consecutive gateway failures are fatal: the pipeline error carries
/// the retry's failure.
pub proof fn lemma_retry_double_failure_fatal(e1: GatewayError, e2: GatewayError)
    ensures
        retry_decision(Err(e1), Some(Err(e2))) == Err::<String, PipelineError>(
            PipelineError::ModelUnavailable(e2),
        ),
{
}

/// Applies the retry policy to the attempts made against the gateway.
pub fn resolve_attempts(
    first: Result<String, GatewayError>,
    retry: Option<Result<String, GatewayError>>,
) -> (r: Result<String, PipelineError>)
    requires
        (retry is Some) == (first is Err),
    ensures
        r == retry_decision(first, retry),
{
    match first {
        Ok(text) => Ok(text),
        Err(first_error) => match retry {
            Some(Ok(text)) => Ok(text),
            Some(Err(retry_error)) => Err(PipelineError::ModelUnavailable(retry_error)),
            None => Err(PipelineError::ModelUnavailable(first_error)),
        },
    }
}

/// Sends the extended prompt built from a catalog function to the model
/// gateway, retrying exactly once on failure. A second consecutive failure is
/// fatal; this call never reports a decode failure.
pub fn ai_task_request<G: Ports, F: Fn(&str) -> &'static str>(
    ports: &mut G,
    msg_context: String,
    function_pass: F,
) -> (r: Result<String, PipelineError>)
    requires
        forall|x: &str| call_requires(function_pass, (x,)),
    ensures
        r is Err ==> r->Err_0 is ModelUnavailable,
{
    let extended_message = extend_ai_function(function_pass, msg_context.as_str());
    let first = ports.send_prompt(&extended_message);
    let retry = if first.is_err() {
        Some(ports.send_prompt(&extended_message))
    } else {
        None
    };
    resolve_attempts(first, retry)
}

} // verus!
