use crate::errors::ExecutionError;
use crate::llm::Message;
use vstd::prelude::*;
use vstd::string::StringExecFns;

verus! {

/// A prompt-shaping strategy: the printed text of one collaborator function,
/// paired with the label used when reporting the call.
#[derive(Debug, Clone)]
pub struct AiFunction {
    pub name: String,
    pub text: String,
}

/// The content of the system message that wraps one collaborator function's
/// text together with its input.
pub open spec fn spec_extended_content(func_text: Seq<char>, func_input: Seq<char>) -> Seq<char> {
    "FUNCTION "@ + func_text
        + "\n    INSTRUCTION: You are a function printer. You only PRINT the results of functions.\n    Nothing else. No commentary. Here is the input to the function: "@
        + func_input + ". Print out\n    what the function will return."@
}

/// Builds the system message handed to the gateway for one task: the
/// collaborator function's text, an instruction to print only that function's
/// result, and the task input.
pub fn extend_ai_function(ai_func: &AiFunction, func_input: &str) -> (msg: Message)
    ensures
        msg.role@ == "system"@,
        msg.content@ == spec_extended_content(ai_func.text@, func_input@),
{
    let mut content = String::from_str("FUNCTION ");
    content.append(ai_func.text.as_str());
    content.append(
        "\n    INSTRUCTION: You are a function printer. You only PRINT the results of functions.\n    Nothing else. No commentary. Here is the input to the function: ",
    );
    content.append(func_input);
    content.append(". Print out\n    what the function will return.");
    Message { role: String::from_str("system"), content }
}

/// Spec-level mirror of [`AttemptOutcome`].
pub enum AttemptOutcomeView {
    Success(Seq<char>),
    Failure(Seq<char>),
}

/// The outcome of one gateway attempt, as seen by the retry rule: the reply
/// text on success, the captured failure text otherwise.
#[derive(Debug)]
pub enum AttemptOutcome {
    Success(String),
    Failure(String),
}

impl View for AttemptOutcome {
    type V = AttemptOutcomeView;

    open spec fn view(&self) -> AttemptOutcomeView {
        match self {
            AttemptOutcome::Success(reply) => AttemptOutcomeView::Success(reply@),
            AttemptOutcome::Failure(detail) => AttemptOutcomeView::Failure(detail@),
        }
    }
}

/// Spec-level mirror of [`RetryDirective`].
pub enum RetryDirectiveView {
    Accept(Seq<char>),
    RetryOnce,
    Abort(Seq<char>),
}

/// What the retry rule directs after one gateway attempt.
#[derive(Debug)]
pub enum RetryDirective {
    /// The attempt succeeded: use its reply.
    Accept(String),
    /// The first attempt failed: make exactly one more.
    RetryOnce,
    /// A retried attempt failed too: the failure is fatal.
    Abort(String),
}

impl View for RetryDirective {
    type V = RetryDirectiveView;

    open spec fn view(&self) -> RetryDirectiveView {
        match self {
            RetryDirective::Accept(reply) => RetryDirectiveView::Accept(reply@),
            RetryDirective::RetryOnce => RetryDirectiveView::RetryOnce,
            RetryDirective::Abort(detail) => RetryDirectiveView::Abort(detail@),
        }
    }
}

/// The retry-once rule: a success is accepted as it stands; a failure with no
/// prior failure on this request earns exactly one more attempt; a failure
/// after any prior failure is fatal.
pub open spec fn spec_retry_directive(prior_failures: nat, outcome: AttemptOutcomeView)
    -> RetryDirectiveView {
    match outcome {
        AttemptOutcomeView::Success(reply) => RetryDirectiveView::Accept(reply),
        AttemptOutcomeView::Failure(detail) => if prior_failures == 0 {
            RetryDirectiveView::RetryOnce
        } else {
            RetryDirectiveView::Abort(detail)
        },
    }
}

/// Decides what follows one gateway attempt, given how many attempts on this
/// same request have already failed.
pub fn retry_step(prior_failures: u8, outcome: AttemptOutcome) -> (d: RetryDirective)
    ensures
        d@ == spec_retry_directive(prior_failures as nat, outcome@),
{
    match outcome {
        AttemptOutcome::Success(reply) => RetryDirective::Accept(reply),
        AttemptOutcome::Failure(detail) => if prior_failures == 0 {
            RetryDirective::RetryOnce
        } else {
            RetryDirective::Abort(detail)
        },
    }
}

/// Retry-once law: after a first failure the rule directs exactly one more
/// attempt; a success on that second attempt is accepted with its reply; a
/// second failure is surfaced as fatal; and no outcome ever earns a third
/// attempt.
pub proof fn lemma_retry_once(first_error: Seq<char>, second: AttemptOutcomeView)
    ensures
        spec_retry_directive(0, AttemptOutcomeView::Failure(first_error))
            is RetryOnce,
        (second matches AttemptOutcomeView::Success(reply) ==> spec_retry_directive(1, second)
            == RetryDirectiveView::Accept(reply)),
        (second matches AttemptOutcomeView::Failure(detail) ==> spec_retry_directive(1, second)
            == RetryDirectiveView::Abort(detail)),
        forall|n: nat, detail: Seq<char>|
            n >= 1 ==> spec_retry_directive(n, AttemptOutcomeView::Failure(detail))
                is Abort,
{
}

/// Turns a structured-decoding outcome into the error the pipeline
/// propagates: a failed decode is always fatal, with no repair attempted at
/// this layer.
pub fn decoded_or_fatal<T>(decoded: Option<T>) -> (r: Result<T, ExecutionError>)
    ensures
        (decoded matches Some(v) ==> (r matches Ok(w) && w == v)),
        decoded is None ==> (r matches Err(e) && e is DecodeFailure),
{
    match decoded {
        Some(v) => Ok(v),
        None => Err(ExecutionError::DecodeFailure),
    }
}

} // verus!
