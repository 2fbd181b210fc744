//! The response normalizer: the single funnel that every transport outcome
//! passes through before it reaches the caller.

use vstd::prelude::*;

use crate::error::{outcome_view, ApiResult, ClientError, ClientErrorV};
use crate::json::{json_canon, json_canonical, json_wf};

verus! {

/// A transport outcome, reduced to plain values: either a response arrived
/// (successful or not, with its status code and body text), or no response
/// was obtained and only a diagnostic is known.
#[derive(Debug, Clone)]
pub enum RawOutcome {
    Success { body: String },
    HttpError { status: u16, body: String },
    Failure { diagnostic: String },
}

/// The mathematical image of a `RawOutcome`.
pub enum RawOutcomeV {
    Success { body: Seq<char> },
    HttpError { status: u16, body: Seq<char> },
    Failure { diagnostic: Seq<char> },
}

impl View for RawOutcome {
    type V = RawOutcomeV;

    open spec fn view(&self) -> RawOutcomeV {
        match self {
            RawOutcome::Success { body } => RawOutcomeV::Success { body: body@ },
            RawOutcome::HttpError { status, body } => RawOutcomeV::HttpError {
                status: *status,
                body: body@,
            },
            RawOutcome::Failure { diagnostic } => RawOutcomeV::Failure { diagnostic: diagnostic@ },
        }
    }
}

/// What the normalizer makes of a transport outcome:
/// - a successful response whose body is well-formed JSON becomes the parsed
///   document, in canonical serialization;
/// - a non-success response whose body is well-formed JSON becomes an API
///   error carrying exactly that serialization (the status code is dropped);
/// - a body that does not parse becomes a parse error carrying the body;
/// - an absent response becomes a request error carrying the diagnostic.
pub open spec fn normal_of(raw: RawOutcomeV) -> Result<Seq<char>, ClientErrorV> {
    match raw {
        RawOutcomeV::Success { body } => if json_wf(body) {
            Ok(json_canon(body))
        } else {
            Err(ClientErrorV::ParseError(body))
        },
        RawOutcomeV::HttpError { status, body } => if json_wf(body) {
            Err(ClientErrorV::ApiError(json_canon(body)))
        } else {
            Err(ClientErrorV::ParseError(body))
        },
        RawOutcomeV::Failure { diagnostic } => Err(ClientErrorV::RequestError(diagnostic)),
    }
}

/// Classify a transport outcome into exactly one of these three outcomes,
/// as `normal_of` describes.
pub fn normalize(raw: RawOutcome) -> (r: ApiResult<String>)
    ensures
        outcome_view(r) == normal_of(raw@),
        raw@ matches RawOutcomeV::Success { body } ==> (json_wf(body) ==> outcome_view(r)
            == Ok::<Seq<char>, ClientErrorV>(json_canon(body))),
        raw@ matches RawOutcomeV::HttpError { status, body } ==> (json_wf(body) ==> outcome_view(r)
            == Err::<Seq<char>, ClientErrorV>(ClientErrorV::ApiError(json_canon(body)))),
        raw@ matches RawOutcomeV::Failure { diagnostic } ==> outcome_view(r)
            == Err::<Seq<char>, ClientErrorV>(ClientErrorV::RequestError(diagnostic)),
{
    match raw {
        RawOutcome::Success { body } => match json_canonical(body.as_str()) {
            Some(canonical) => Ok(canonical),
            None => Err(ClientError::ParseError(body)),
        },
        RawOutcome::HttpError { status: _, body } => match json_canonical(body.as_str()) {
            Some(canonical) => Err(ClientError::ApiError(canonical)),
            None => Err(ClientError::ParseError(body)),
        },
        RawOutcome::Failure { diagnostic } => Err(ClientError::RequestError(diagnostic)),
    }
}

/// The kind of a normalized outcome, with the kinds a transport outcome can
/// never produce included for completeness.
pub enum OutcomeClass {
    Success,
    Api,
    Parse,
    Request,
    Config,
}

/// The class a normalized outcome falls in.
pub open spec fn outcome_class(o: Result<Seq<char>, ClientErrorV>) -> OutcomeClass {
    match o {
        Ok(_) => OutcomeClass::Success,
        Err(ClientErrorV::ApiError(_)) => OutcomeClass::Api,
        Err(ClientErrorV::ParseError(_)) => OutcomeClass::Parse,
        Err(ClientErrorV::RequestError(_)) => OutcomeClass::Request,
        Err(ClientErrorV::ConfigError(_)) => OutcomeClass::Config,
    }
}

/// The class a transport outcome must normalize into.
pub open spec fn raw_class(raw: RawOutcomeV) -> OutcomeClass {
    match raw {
        RawOutcomeV::Success { body } => if json_wf(body) {
            OutcomeClass::Success
        } else {
            OutcomeClass::Parse
        },
        RawOutcomeV::HttpError { status, body } => if json_wf(body) {
            OutcomeClass::Api
        } else {
            OutcomeClass::Parse
        },
        RawOutcomeV::Failure { .. } => OutcomeClass::Request,
    }
}

/// A normalized outcome's classification is determined by the transport
/// outcome's classification alone; in particular it is never a
/// configuration error.
pub proof fn lemma_class_of_normal(raw: RawOutcomeV)
    ensures
        outcome_class(normal_of(raw)) == raw_class(raw),
        !(outcome_class(normal_of(raw)) is Config),
{
}

/// Repeating a call is classification-stable: two dispatches whose transport
/// outcomes fall in the same class produce equally classified results, so a
/// repeated call against a stable endpoint differs only by whatever the
/// backend itself does differently.
pub proof fn lemma_repeat_same_class(first: RawOutcomeV, second: RawOutcomeV)
    requires
        raw_class(first) == raw_class(second),
    ensures
        outcome_class(normal_of(first)) == outcome_class(normal_of(second)),
{
    lemma_class_of_normal(first);
    lemma_class_of_normal(second);
}

} // verus!
