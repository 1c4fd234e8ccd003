//! The errors that a query can answer with.

use vstd::prelude::*;

use jsonrpc_core::ErrorCode;

use crate::text::{BlockId, HashOrHeight};

verus! {

/// The code of an error about a block that was asked for by height and is not in the state.
pub const MISSING_BLOCK_ERROR_CODE: i64 = -8;

/// The code of an error about a block that was asked for by hash and is not in the state.
pub const INVALID_ADDRESS_OR_KEY_ERROR_CODE: i64 = -5;

/// The code of an error about a method parameter that is not valid.
pub const INVALID_PARAMS_ERROR_CODE: i64 = -32602;

/// An error in the form in which a JSON-RPC server reports it.
#[derive(Debug)]
pub struct RpcError {
    /// The number by which clients tell errors apart.
    pub code: i64,
    /// What went wrong, in words.
    pub message: String,
    /// Further details.
    pub data: Option<String>,
}

/// An error of the state service.
#[derive(Debug)]
pub enum StateServiceError {
    /// The state gave an answer of a kind that was not asked for.
    Custom(String),
    /// An error with a code of its own.
    RpcError(RpcError),
    /// A text could not be read as what it should name.
    SerializationError(String),
    /// The state service itself failed, with its own account of why.
    Generic(String),
}

/// What a [`StateServiceError`] says.
pub ghost enum ErrorView {
    Custom(Seq<char>),
    RpcError { code: i64, message: Seq<char>, data: Option<Seq<char>> },
    SerializationError(Seq<char>),
    Generic(Seq<char>),
}

impl View for StateServiceError {
    type V = ErrorView;

    open spec fn view(&self) -> ErrorView {
        match *self {
            StateServiceError::Custom(text) => ErrorView::Custom(text@),
            StateServiceError::RpcError(error) => ErrorView::RpcError {
                code: error.code,
                message: error.message@,
                data: match error.data {
                    Some(data) => Some(data@),
                    None => None,
                },
            },
            StateServiceError::SerializationError(text) => ErrorView::SerializationError(text@),
            StateServiceError::Generic(text) => ErrorView::Generic(text@),
        }
    }
}

/// An RPC error with a code and a message, and no further details.
pub open spec fn rpc_error_view(code: i64, message: Seq<char>) -> ErrorView {
    ErrorView::RpcError { code, message, data: None }
}

/// Makes an RPC error without further details.
pub fn rpc_error(code: i64, message: &str) -> (error: StateServiceError)
    ensures
        error@ == rpc_error_view(code, message@),
        error matches StateServiceError::RpcError(inner) && inner.code == code && inner.message@
            == message@ && inner.data is None,
{
    StateServiceError::RpcError(RpcError { code, message: message.to_string(), data: None })
}

/// The code of an error about a block that is not in the state: it tells whether the caller named
/// the block by hash or by height.
pub open spec fn missing_block_code_view(block: BlockId) -> i64 {
    match block {
        BlockId::Hash(_) => INVALID_ADDRESS_OR_KEY_ERROR_CODE,
        BlockId::Height(_) => MISSING_BLOCK_ERROR_CODE,
    }
}

/// Returns the code of an error about a block that is not in the state.
pub fn missing_block_code(block: &HashOrHeight) -> (code: i64)
    ensures
        code == missing_block_code_view(block@),
{
    match block {
        HashOrHeight::Hash(_) => INVALID_ADDRESS_OR_KEY_ERROR_CODE,
        HashOrHeight::Height(_) => MISSING_BLOCK_ERROR_CODE,
    }
}

/// Calls `jsonrpc_core::ErrorCode::code` on `ErrorCode::InvalidParams`.
///
/// Claims that the code for invalid method parameters is -32602.
#[verifier::external_body]
pub(crate) fn invalid_params_code() -> (code: i64)
    ensures
        code == INVALID_PARAMS_ERROR_CODE,
{
    ErrorCode::InvalidParams.code()
}

/// Makes the error for a reply of a kind that was not asked for.
pub fn unexpected_reply(message: &str) -> (error: StateServiceError)
    ensures
        error@ == ErrorView::Custom(message@),
        error matches StateServiceError::Custom(inner) && inner@ == message@,
{
    StateServiceError::Custom(message.to_string())
}

/// An error's view shows its kind and every text and number in it.
pub proof fn law_error_view_shows_the_error(text: String, error: RpcError)
    ensures
        StateServiceError::Custom(text)@ == ErrorView::Custom(text@),
        StateServiceError::SerializationError(text)@ == ErrorView::SerializationError(text@),
        StateServiceError::Generic(text)@ == ErrorView::Generic(text@),
        StateServiceError::RpcError(error)@ matches ErrorView::RpcError { code, message, data } && {
            &&& code == error.code
            &&& message == error.message@
            &&& data is Some <==> error.data is Some
            &&& data is Some ==> data->0 == error.data->0@
        },
{
}

/// An RPC error has the code and the message it was made with, and no further details; the codes
/// are -5 for a block named by hash, -8 for one named by height, and -32602 for parameters.
pub proof fn law_rpc_error_codes(code: i64, message: Seq<char>, hash: Seq<u8>, height: u32)
    ensures
        rpc_error_view(code, message) == (ErrorView::RpcError { code, message, data: None }),
        missing_block_code_view(BlockId::Hash(hash)) == -5,
        missing_block_code_view(BlockId::Height(height)) == -8,
        INVALID_PARAMS_ERROR_CODE == -32602,
{
}

} // verus!
