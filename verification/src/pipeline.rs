//! From a script to an oracle value: run it, coerce what it hands back, and
//! put the outcome into the record that answers the request.
//!
//! A run may be moved off the serving path. What crosses the boundary is the
//! outcome of `evaluate`, which is plain data; `complete_isolated` takes it up
//! on the other side.

use crate::coerce::{agrees, coerced, convert_rhai_result};
use crate::engine::evaluate;
use crate::host::FetchOutcome;
use crate::text::join2;
use crate::types::{
    CodeExtension, EnclaveError, ExecuteCodeRequest, ExecuteCodeResponse, Failure, OracleFeed,
    OracleValue, Payload, PipelineError, ResultValue, ReturnType, UpdateOracleResponse,
};
use crate::value::{ScriptFailure, ScriptValue};
use vstd::prelude::*;

verus! {

/// The intent under which a feed update is signed.
pub const PROCESS_DATA_INTENT: u8 = 0;

/// What a finished run comes to: the coerced value, or the interpreter's
/// diagnostic as a failure of the run.
pub open spec fn completed(outcome: Result<ScriptValue, ScriptFailure>, expected_type: ReturnType) -> Result<
    OracleValue,
    Failure,
> {
    match outcome {
        Ok(value) => coerced(value, expected_type),
        Err(ScriptFailure::Syntax(diagnostic)) => Err(Failure::ScriptSyntaxError(diagnostic@)),
        Err(ScriptFailure::Runtime(diagnostic)) => Err(Failure::ScriptRuntimeError(diagnostic@)),
    }
}

/// What an isolated run comes to: as a finished run where its outcome was
/// delivered, a broken isolation where it was not.
pub open spec fn completed_isolated(
    delivered: Result<Result<ScriptValue, ScriptFailure>, String>,
    expected_type: ReturnType,
) -> Result<OracleValue, Failure> {
    match delivered {
        Ok(outcome) => completed(outcome, expected_type),
        Err(e) => Err(Failure::IsolationBroken(e@)),
    }
}

/// Whether a language has an interpreter here.
pub open spec fn supported(extension: CodeExtension) -> bool {
    extension == CodeExtension::RHAI
}

/// Whether `response` answers a direct run that ended in `outcome`: the
/// value and success, or an empty text, no success and the failure's
/// sentence.
pub open spec fn answers(
    response: ExecuteCodeResponse,
    outcome: Result<Option<ResultValue>, EnclaveError>,
) -> bool {
    match outcome {
        Ok(Some(value)) => response.success && response.result == value && response.error is None,
        Ok(None) => {
            &&& !response.success
            &&& response.result@ == OracleValue::Text(Seq::empty())
            &&& response.error matches Some(e)
            &&& e@ == "Rhai code execution returned no result"@
        },
        Err(failure) => {
            &&& !response.success
            &&& response.result@ == OracleValue::Text(Seq::empty())
            &&& response.error matches Some(e)
            &&& e@ == failure.message()
        },
    }
}

/// Whether `result` answers a feed update whose run ended in `outcome`.
pub open spec fn updates(
    result: Result<UpdateOracleResponse, PipelineError>,
    feed: OracleFeed,
    outcome: Result<Option<ResultValue>, EnclaveError>,
) -> bool {
    if !supported(feed.extension) {
        result == Err::<UpdateOracleResponse, PipelineError>(PipelineError::UnsupportedLanguage)
    } else {
        match outcome {
            Ok(Some(value)) => result matches Ok(response) && response.result == value,
            Ok(None) => result == Err::<UpdateOracleResponse, PipelineError>(
                PipelineError::NoResult,
            ),
            Err(failure) => result == Err::<UpdateOracleResponse, PipelineError>(
                PipelineError::Failed { stage: failure@.stage(), cause: failure },
            ),
        }
    }
}

/// Takes up a finished run: coerces its value into the declared shape, or
/// reports the interpreter's diagnostic.
pub fn complete(outcome: Result<ScriptValue, ScriptFailure>, expected_type: &ReturnType) -> (r: Result<
    Option<ResultValue>,
    EnclaveError,
>)
    ensures
        agrees(r, completed(outcome, *expected_type)),
{
    match outcome {
        Ok(value) => convert_rhai_result(&value, expected_type),
        Err(ScriptFailure::Syntax(diagnostic)) => Err(EnclaveError::ScriptSyntaxError(diagnostic)),
        Err(ScriptFailure::Runtime(diagnostic)) => Err(
            EnclaveError::ScriptRuntimeError(diagnostic),
        ),
    }
}

/// Takes up a run that was made elsewhere: `delivered` is what the hand-off
/// brought, or why it brought nothing.
pub fn complete_isolated(
    delivered: Result<Result<ScriptValue, ScriptFailure>, String>,
    expected_type: &ReturnType,
) -> (r: Result<Option<ResultValue>, EnclaveError>)
    ensures
        agrees(r, completed_isolated(delivered, *expected_type)),
{
    match delivered {
        Ok(outcome) => complete(outcome, expected_type),
        Err(e) => Err(EnclaveError::IsolationBroken(e)),
    }
}

/// Runs a script in an interpreter of its own and coerces what it hands
/// back into the declared shape. `fetch` performs the GET requests that the
/// script asks for.
///
/// What the script hands back is the interpreter's to say; whatever it is,
/// the result is what `complete` makes of it.
pub fn execute_rhai_code<F: Fn(&str) -> FetchOutcome + Clone + 'static>(
    code: &str,
    expected_type: &ReturnType,
    fetch: F,
) -> (r: Result<Option<ResultValue>, EnclaveError>)
    ensures
        exists|outcome: Result<ScriptValue, ScriptFailure>|
            agrees(r, #[trigger] completed(outcome, *expected_type)),
{
    let outcome = evaluate(code, fetch);
    let ghost ran = outcome;
    let r = complete(outcome, expected_type);
    assert(agrees(r, completed(ran, *expected_type)));
    r
}

/// Puts the outcome of a direct run into its answer. A failure is told in
/// the answer, never raised.
pub fn execute_code_response(outcome: Result<Option<ResultValue>, EnclaveError>) -> (r:
    ExecuteCodeResponse)
    ensures
        answers(r, outcome),
{
    match outcome {
        Ok(Some(result)) => ExecuteCodeResponse { result, success: true, error: None },
        Ok(None) => ExecuteCodeResponse {
            result: ResultValue::STRING(String::new()),
            success: false,
            error: Some("Rhai code execution returned no result".to_owned()),
        },
        Err(failure) => ExecuteCodeResponse {
            result: ResultValue::STRING(String::new()),
            success: false,
            error: Some(failure.to_string()),
        },
    }
}

/// Runs the script of a request directly, without a feed, and answers with
/// its value or with the reason there is none.
pub fn execute_code<F: Fn(&str) -> FetchOutcome + Clone + 'static>(
    request: &ExecuteCodeRequest,
    fetch: F,
) -> (r: ExecuteCodeResponse)
    ensures
        exists|outcome: Result<ScriptValue, ScriptFailure>, run: Result<Option<ResultValue>, EnclaveError>|
            #[trigger] agrees(run, completed(outcome, request.return_type)) && #[trigger] answers(
                r,
                run,
            ),
{
    let run = execute_rhai_code(request.code.as_str(), &request.return_type, fetch);
    let ghost kept = run;
    let r = execute_code_response(run);
    assert(answers(r, kept));
    r
}

/// Whether a feed's language has an interpreter here.
pub fn is_supported(extension: CodeExtension) -> (b: bool)
    ensures
        b == supported(extension),
{
    match extension {
        CodeExtension::RHAI => true,
    }
}

/// Where the script of a feed is stored.
pub fn blob_url(blob_id: &str) -> (r: String)
    ensures
        r@ == "https://aggregator.walrus-testnet.walrus.space/v1/blobs/"@ + blob_id@,
{
    join2("https://aggregator.walrus-testnet.walrus.space/v1/blobs/", blob_id)
}

/// Puts the outcome of a feed's run into the answer to an update: the
/// value, or the first failure with the stage it arose in. A feed in a
/// language without an interpreter is refused whatever the outcome.
pub fn update_response(feed: &OracleFeed, outcome: Result<Option<ResultValue>, EnclaveError>) -> (r:
    Result<UpdateOracleResponse, PipelineError>)
    ensures
        updates(r, *feed, outcome),
{
    if !is_supported(feed.extension) {
        return Err(PipelineError::UnsupportedLanguage);
    }
    match outcome {
        Ok(Some(result)) => Ok(UpdateOracleResponse { result }),
        Ok(None) => Err(PipelineError::NoResult),
        Err(failure) => {
            let stage = failure.stage();
            Err(PipelineError::Failed { stage, cause: failure })
        },
    }
}

/// Updates a feed from its script: checks the language, runs the script and
/// coerces what it hands back into the shape the feed declares.
pub fn process_data<F: Fn(&str) -> FetchOutcome + Clone + 'static>(
    feed: &OracleFeed,
    script: &str,
    fetch: F,
) -> (r: Result<UpdateOracleResponse, PipelineError>)
    ensures
        !supported(feed.extension) ==> r == Err::<UpdateOracleResponse, PipelineError>(
            PipelineError::UnsupportedLanguage,
        ),
        supported(feed.extension) ==> exists|
            outcome: Result<ScriptValue, ScriptFailure>,
            run: Result<Option<ResultValue>, EnclaveError>,
        |
            #[trigger] agrees(run, completed(outcome, feed.return_type)) && #[trigger] updates(
                r,
                *feed,
                run,
            ),
{
    if !is_supported(feed.extension) {
        return Err(PipelineError::UnsupportedLanguage);
    }
    let run = execute_rhai_code(script, &feed.return_type, fetch);
    let ghost kept = run;
    let r = update_response(feed, run);
    assert(updates(r, *feed, kept));
    r
}

/// What is signed for an update: the value, the time and the intent.
pub fn payload_of(response: &UpdateOracleResponse, timestamp_ms: u64) -> (r: Payload)
    ensures
        r.intent_scope == PROCESS_DATA_INTENT,
        r.timestamp_ms == timestamp_ms,
        r.result@ == response.result@,
{
    let result = match &response.result {
        ResultValue::STRING(s) => ResultValue::STRING(s.clone()),
        ResultValue::BOOLEAN(b) => ResultValue::BOOLEAN(*b),
        ResultValue::NUMBER(n) => ResultValue::NUMBER(*n),
        ResultValue::VECTOR(v) => ResultValue::VECTOR(v.clone()),
    };
    Payload { intent_scope: PROCESS_DATA_INTENT, timestamp_ms, result }
}

} // verus!
