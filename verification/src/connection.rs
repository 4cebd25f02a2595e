//! What a connection decides around the engine's work: how parameters
//! are handed over, and what the engine's answer comes to.

use vstd::prelude::*;
use crate::bytes::ByteOrder;
use crate::codec::encode_fields_prefix;
use crate::encode::{encode_fields, encoded_list_as};
use crate::error::{Error, ErrorView};
use crate::foreign::ForeignValue;
use crate::value::{named_values_view, Value};

verus! {

/// Encodes the values of named parameters, in their order, for the engine
/// to bind under their names.  The first parameter that cannot be handed
/// over fails the whole.
pub fn encode_params(params: &Vec<(String, Value)>, order: ByteOrder) -> (r: Result<
    Vec<ForeignValue>,
    Error,
>)
    ensures
        encoded_list_as(
            r,
            encode_fields_prefix(named_values_view(params@), params.len() as nat, order),
        ),
        r matches Ok(values) ==> values.len() == params.len(),
{
    let r = encode_fields(params, order);
    proof {
        crate::encode::lemma_encode_fields_prefix_len(
            named_values_view(params@),
            params.len() as nat,
            order,
        );
    }
    r
}

/// What preparing a statement comes to: success, or the engine's message
/// as `FailedPreparedStatement`.
pub fn prepare_outcome(success: bool, message: String) -> (r: Result<(), Error>)
    ensures
        success ==> r is Ok,
        !success ==> r is Err && r->Err_0@ == ErrorView::FailedPreparedStatement(message@),
{
    if success {
        Ok(())
    } else {
        Err(Error::FailedPreparedStatement(message))
    }
}

/// What executing a query comes to: success, or the engine's message as
/// `FailedQuery`.
pub fn execute_outcome(success: bool, message: String) -> (r: Result<(), Error>)
    ensures
        success ==> r is Ok,
        !success ==> r is Err && r->Err_0@ == ErrorView::FailedQuery(message@),
{
    if success {
        Ok(())
    } else {
        Err(Error::FailedQuery(message))
    }
}

} // verus!
