//! The oracle's data: the four value shapes, the feed record, the request and
//! response records, and the failures.

use crate::text::{decimal_text, join2, join3, signed_text};
use vstd::prelude::*;

verus! {

/// A value as the oracle publishes it.
#[derive(Clone, Debug, PartialEq)]
pub enum ResultValue {
    STRING(String),
    BOOLEAN(bool),
    NUMBER(u64),
    VECTOR(Vec<u8>),
}

/// What a `ResultValue` holds, as mathematics sees it.
pub enum OracleValue {
    Text(Seq<char>),
    Flag(bool),
    Number(u64),
    Bytes(Seq<u8>),
}

impl View for ResultValue {
    type V = OracleValue;

    open spec fn view(&self) -> OracleValue {
        match *self {
            ResultValue::STRING(s) => OracleValue::Text(s@),
            ResultValue::BOOLEAN(b) => OracleValue::Flag(b),
            ResultValue::NUMBER(n) => OracleValue::Number(n),
            ResultValue::VECTOR(v) => OracleValue::Bytes(v@),
        }
    }
}

/// The shape a feed declares for the value its script produces.
#[derive(Clone, Copy, Debug, PartialEq, Eq, Structural)]
pub enum ReturnType {
    STRING,
    BOOLEAN,
    NUMBER,
    VECTOR,
}

/// The language a feed's script is written in.
#[derive(Clone, Copy, Debug, PartialEq, Eq, Structural)]
pub enum CodeExtension {
    RHAI,
}

/// What is signed for one update: the value, when it was produced, and to
/// what end.
#[derive(Clone, Debug, PartialEq)]
pub struct Payload {
    pub intent_scope: u8,
    pub timestamp_ms: u64,
    pub result: ResultValue,
}

/// A feed as the ledger records it.
#[derive(Clone, Debug, PartialEq)]
pub struct OracleFeed {
    pub id: [u8; 32],
    pub blob_id: String,
    pub extension: CodeExtension,
    pub result: Option<ResultValue>,
    pub return_type: ReturnType,
    pub allow_update_timestamp_ms: u64,
}

/// The answer to a feed update.
#[derive(Clone, Debug)]
pub struct UpdateOracleResponse {
    pub result: ResultValue,
}

/// The request for a feed update.
#[derive(Debug)]
pub struct UpdateOracleRequest {
    feed_id: String,
}

impl UpdateOracleRequest {
    /// A request to update the feed with the given identifier.
    pub fn new(feed_id: String) -> (r: UpdateOracleRequest)
        ensures
            r.feed_id() == feed_id,
    {
        UpdateOracleRequest { feed_id }
    }

    /// The identifier of the feed, as the request writes it.
    pub closed spec fn feed_id(&self) -> String {
        self.feed_id
    }

    /// The identifier of the feed, as the request writes it.
    pub fn get_feed_id(&self) -> (r: &String)
        ensures
            *r == self.feed_id(),
    {
        &self.feed_id
    }
}

/// The request to run a script directly.
#[derive(Debug)]
pub struct ExecuteCodeRequest {
    pub code: String,
    pub return_type: ReturnType,
}

/// The answer to a direct run: the value, or the reason there is none.
#[derive(Debug)]
pub struct ExecuteCodeResponse {
    pub result: ResultValue,
    pub success: bool,
    pub error: Option<String>,
}

/// Why no oracle value came out.
#[derive(Clone, Debug, PartialEq)]
pub enum EnclaveError {
    /// The script's number is below zero (or is no number at all, for one
    /// with a fractional part); the text is the number as written.
    NegativeNumber(String),
    /// The script handed back a text that opens with the error marker.
    ScriptReportedError(String),
    /// The text is no unsigned decimal number; `reason` is the parser's word.
    NotANumber { text: String, reason: String },
    /// The text is none of the four spellings of a truth value.
    NotABoolean,
    /// An element of the sequence is an integer outside 0..=255.
    ByteOutOfRange(i64),
    /// An element of the sequence is neither an integer nor a text.
    UnsupportedElementType,
    /// The script does not parse; the text is the interpreter's diagnostic.
    ScriptSyntaxError(String),
    /// The script stopped while it ran; the text is the interpreter's
    /// diagnostic.
    ScriptRuntimeError(String),
    /// The isolated run delivered nothing.
    IsolationBroken(String),
    /// The ledger or the blob store could not be read; the text says why.
    TransportError(String),
}

/// What an `EnclaveError` says, apart from the parser's wording.
pub enum Failure {
    NegativeNumber(Seq<char>),
    ScriptReportedError(Seq<char>),
    NotANumber(Seq<char>),
    NotABoolean,
    ByteOutOfRange(i64),
    UnsupportedElementType,
    ScriptSyntaxError(Seq<char>),
    ScriptRuntimeError(Seq<char>),
    IsolationBroken(Seq<char>),
    TransportError(Seq<char>),
}

/// The part of the pipeline in which a failure arose.
#[derive(Clone, Copy, Debug, PartialEq, Eq, Structural)]
pub enum Stage {
    Fetch,
    Execute,
    Coerce,
}

impl View for EnclaveError {
    type V = Failure;

    open spec fn view(&self) -> Failure {
        match *self {
            EnclaveError::NegativeNumber(t) => Failure::NegativeNumber(t@),
            EnclaveError::ScriptReportedError(t) => Failure::ScriptReportedError(t@),
            EnclaveError::NotANumber { text, reason } => Failure::NotANumber(text@),
            EnclaveError::NotABoolean => Failure::NotABoolean,
            EnclaveError::ByteOutOfRange(n) => Failure::ByteOutOfRange(n),
            EnclaveError::UnsupportedElementType => Failure::UnsupportedElementType,
            EnclaveError::ScriptSyntaxError(t) => Failure::ScriptSyntaxError(t@),
            EnclaveError::ScriptRuntimeError(t) => Failure::ScriptRuntimeError(t@),
            EnclaveError::IsolationBroken(t) => Failure::IsolationBroken(t@),
            EnclaveError::TransportError(t) => Failure::TransportError(t@),
        }
    }
}

impl Failure {
    /// The stage that a failure belongs to: what could not be read to the
    /// fetching, the interpreter's and the hand-off's failures to the run,
    /// the rest to the coercion.
    pub open spec fn stage(self) -> Stage {
        match self {
            Failure::TransportError(_) => Stage::Fetch,
            Failure::ScriptSyntaxError(_) | Failure::ScriptRuntimeError(_)
            | Failure::IsolationBroken(_) => Stage::Execute,
            _ => Stage::Coerce,
        }
    }
}

impl EnclaveError {
    /// The sentence that reports this failure.
    pub open spec fn message(self) -> Seq<char> {
        match self {
            EnclaveError::NegativeNumber(t) => "Negative number not supported: "@ + t@,
            EnclaveError::ScriptReportedError(t) => "Rhai code execution failed: "@ + t@,
            EnclaveError::NotANumber { text, reason } => "Cannot convert to NUMBER: string '"@
                + text@ + "' is not a valid number: "@ + reason@,
            EnclaveError::NotABoolean => "Cannot convert to BOOLEAN"@,
            EnclaveError::ByteOutOfRange(n) => "Value "@ + decimal_text(n as int)
                + " out of u8 range"@,
            EnclaveError::UnsupportedElementType => "Unsupported array element type"@,
            EnclaveError::ScriptSyntaxError(t) => "Rhai execution error: "@ + t@,
            EnclaveError::ScriptRuntimeError(t) => "Rhai execution error: "@ + t@,
            EnclaveError::IsolationBroken(t) => "Thread communication error: "@ + t@,
            EnclaveError::TransportError(t) => t@,
        }
    }

    /// The sentence that reports this failure.
    pub fn to_string(&self) -> (r: String)
        ensures
            r@ == self.message(),
    {
        match self {
            EnclaveError::NegativeNumber(t) => join2("Negative number not supported: ", t.as_str()),
            EnclaveError::ScriptReportedError(t) => join2(
                "Rhai code execution failed: ",
                t.as_str(),
            ),
            EnclaveError::NotANumber { text, reason } => {
                let head = join3("Cannot convert to NUMBER: string '", text.as_str(),
                    "' is not a valid number: ");
                join2(head.as_str(), reason.as_str())
            },
            EnclaveError::NotABoolean => "Cannot convert to BOOLEAN".to_owned(),
            EnclaveError::ByteOutOfRange(n) => {
                let number = signed_text(*n);
                join3("Value ", number.as_str(), " out of u8 range")
            },
            EnclaveError::UnsupportedElementType => "Unsupported array element type".to_owned(),
            EnclaveError::ScriptSyntaxError(t) => join2("Rhai execution error: ", t.as_str()),
            EnclaveError::ScriptRuntimeError(t) => join2("Rhai execution error: ", t.as_str()),
            EnclaveError::IsolationBroken(t) => join2("Thread communication error: ", t.as_str()),
            EnclaveError::TransportError(t) => t.clone(),
        }
    }

    /// The stage of the pipeline in which this failure arose.
    pub fn stage(&self) -> (s: Stage)
        ensures
            s == self@.stage(),
    {
        match self {
            EnclaveError::TransportError(_) => Stage::Fetch,
            EnclaveError::ScriptSyntaxError(_) => Stage::Execute,
            EnclaveError::ScriptRuntimeError(_) => Stage::Execute,
            EnclaveError::IsolationBroken(_) => Stage::Execute,
            _ => Stage::Coerce,
        }
    }
}

/// Why a feed update produced no value.
#[derive(Clone, Debug, PartialEq)]
pub enum PipelineError {
    /// The feed names a language that no interpreter here runs.
    UnsupportedLanguage,
    /// A step failed; `stage` says which.
    Failed { stage: Stage, cause: EnclaveError },
    /// The run ended without a value.
    NoResult,
}

impl PipelineError {
    /// The failure of an update that could not fetch what it needs: the feed
    /// from the ledger, or its script from the blob store.
    pub fn fetch_failed(message: String) -> (r: PipelineError)
        ensures
            r == (PipelineError::Failed {
                stage: Stage::Fetch,
                cause: EnclaveError::TransportError(message),
            }),
    {
        PipelineError::Failed { stage: Stage::Fetch, cause: EnclaveError::TransportError(message) }
    }

    /// The sentence that reports this failure. What could not be fetched
    /// speaks for itself; a failure of the run or of the coercion is
    /// reported as a failure to execute the script.
    pub open spec fn message(self) -> Seq<char> {
        match self {
            PipelineError::UnsupportedLanguage => "Unsupported code extension"@,
            PipelineError::Failed { stage, cause } => if stage == Stage::Fetch {
                cause.message()
            } else {
                "Failed to execute Rhai code: "@ + cause.message()
            },
            PipelineError::NoResult => "Rhai code execution returned no result"@,
        }
    }

    /// The sentence that reports this failure.
    pub fn to_string(&self) -> (r: String)
        ensures
            r@ == self.message(),
    {
        match self {
            PipelineError::UnsupportedLanguage => "Unsupported code extension".to_owned(),
            PipelineError::Failed { stage, cause } => {
                let inner = cause.to_string();
                match stage {
                    Stage::Fetch => inner,
                    _ => join2("Failed to execute Rhai code: ", inner.as_str()),
                }
            },
            PipelineError::NoResult => "Rhai code execution returned no result".to_owned(),
        }
    }
}

} // verus!
