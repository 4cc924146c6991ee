//! The dispatcher's decisions for one request: which call on the backend
//! serves it, and which response answers it.

use vstd::prelude::*;
use vstd::string::*;
use crate::codec::base64_decoding;
use crate::decode::{
    decode, decode_message, decoded, id_of, names_unknown_method, request_id, RawRequest,
};
use crate::envelope::{JsonResponse, INTERNAL_ERROR};
use crate::requests::{
    block_header_spec, block_transactions_spec, dispatch_method, lookup_block_spec, message_text,
    routes_to, transactions_spec, BackendCall, JsonRequest, Method, RequestError,
};

verus! {

/// What the dispatcher does next with a request.
#[derive(Clone, Debug, PartialEq, Eq)]
pub enum Step {
    /// Make this call on the backend, and answer request `id` with its
    /// outcome.
    Call { id: u64, call: BackendCall },
    /// Answer at once, without any call on the backend.
    Respond { response: JsonResponse },
}

/// The refusal that the parameters of `method` earn, if any.
pub open spec fn refusal(method: Method) -> Option<RequestError> {
    match method {
        Method::LookupBlock { params } => match lookup_block_spec(params) {
            Ok(_) => None,
            Err(e) => Some(e),
        },
        Method::BlockHeader { params } => match block_header_spec(params) {
            Ok(_) => None,
            Err(e) => Some(e),
        },
        Method::BlockTransactions { params } => match block_transactions_spec(params) {
            Ok(_) => None,
            Err(e) => Some(e),
        },
        Method::Transactions { params } => match transactions_spec(params) {
            Ok(_) => None,
            Err(e) => Some(e),
        },
        Method::SendBoc { params } => if base64_decoding(params.boc@) is None {
            Some(RequestError::InvalidBoc)
        } else {
            None
        },
        _ => None,
    }
}

/// Whether `response` reports a failure with `message` to request `id`.
pub open spec fn is_failure(response: JsonResponse, id: u64, message: Seq<char>) -> bool {
    &&& response.well_formed()
    &&& !response.ok
    &&& response.id == id
    &&& response.error matches Some(e) && e.code == INTERNAL_ERROR && e.message@ == message
}

/// Whether `step` is what a decoded request leads to: the one call on the
/// backend that serves its method, or, where its parameters are refused, the
/// failure response with the refusal's message. Either way the request's id
/// is kept.
pub open spec fn begins(request: JsonRequest, step: Step) -> bool {
    match step {
        Step::Call { id, call } => {
            &&& id == request.id
            &&& refusal(request.method) is None
            &&& routes_to(request.method, Ok(call))
        },
        Step::Respond { response } => {
            &&& refusal(request.method) matches Some(e) && is_failure(
                response,
                request.id,
                message_text(e),
            )
        },
    }
}

/// Decides what a decoded request leads to.
pub fn begin(request: JsonRequest) -> (step: Step)
    ensures
        begins(request, step),
{
    let id = request.id;
    match dispatch_method(request.method) {
        Ok(call) => Step::Call { id, call },
        Err(e) => Step::Respond { response: JsonResponse::error(id, e.message()) },
    }
}

/// Decides what a request body leads to. A body that does not decode is
/// answered at once with the failure, under its own id where that could be
/// read; in particular a method outside the registry never leads to a call
/// on the backend. A body that decodes goes the way of `begin`.
pub fn handle(raw: &RawRequest) -> (step: Step)
    ensures
        match decoded(*raw) {
            Ok(request) => begins(request, step),
            Err(e) => step matches Step::Respond { response } && is_failure(
                response,
                id_of(*raw),
                decode_message(e),
            ),
        },
        names_unknown_method(*raw) ==> step is Respond,
{
    match decode(raw) {
        Ok(request) => begin(request),
        Err(e) => Step::Respond { response: JsonResponse::error(request_id(raw), e.message()) },
    }
}

} // verus!
