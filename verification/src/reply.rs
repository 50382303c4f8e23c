//! How a failed request is answered: the HTTP status, a stable
//! machine-readable code and a message fit to show to the client.

use vstd::prelude::*;

use crate::store::CatalogError;

verus! {

/// The answer to a failed request.
#[derive(Debug, Clone, PartialEq, Eq)]
pub struct ErrorReply {
    pub status: u16,
    pub code: String,
    pub message: String,
}

/// Whether `r` answers with `status`, `code` and `message`.
pub open spec fn replies(r: ErrorReply, status: u16, code: Seq<char>, message: Seq<char>) -> bool {
    r.status == status && r.code@ == code && r.message@ == message
}

/// The answer to a request that the server could not carry out for a reason
/// of its own: the reason is not disclosed.
pub open spec fn is_internal_error_reply(r: ErrorReply) -> bool {
    replies(r, 500, "internal_error"@, "The server encountered an unexpected error."@)
}

/// The answer to a request that the catalog refused with `err`.
pub open spec fn is_reply_to(err: CatalogError, r: ErrorReply) -> bool {
    match err {
        CatalogError::EmptyTitle => replies(r, 400, "validation_failed"@, "Product title is required."@),
        CatalogError::EmptyHandle => replies(r, 400, "validation_failed"@, "Product handle is required."@),
        CatalogError::DuplicateHandle { handle } => replies(
            r,
            409,
            "duplicate_product_handle"@,
            "Another product already uses this handle: "@ + handle@,
        ),
        CatalogError::ProductNotFound { .. } => replies(r, 404, "not_found"@, "Product not found."@),
        CatalogError::Database(_) => is_internal_error_reply(r),
        CatalogError::Pool(_) => is_internal_error_reply(r),
    }
}

/// The answer to a request that asked for something that does not exist.
pub fn not_found_reply(message: String) -> (r: ErrorReply)
    ensures
        r.status == 404,
        r.code@ == "not_found"@,
        r.message@ == message@,
{
    ErrorReply { status: 404, code: String::from_str("not_found"), message }
}

/// The answer to a request that failed inside the server.
pub fn internal_error_reply() -> (r: ErrorReply)
    ensures
        is_internal_error_reply(r),
{
    ErrorReply {
        status: 500,
        code: String::from_str("internal_error"),
        message: String::from_str("The server encountered an unexpected error."),
    }
}

/// The answer to a request that the catalog refused with `err`: blank
/// fields are a bad request, a taken handle a conflict, a missing product
/// not found, and database trouble an internal error whose details are
/// kept from the client.
pub fn catalog_error_reply(err: &CatalogError) -> (r: ErrorReply)
    ensures
        is_reply_to(*err, r),
{
    match err {
        CatalogError::EmptyTitle => ErrorReply {
            status: 400,
            code: String::from_str("validation_failed"),
            message: String::from_str("Product title is required."),
        },
        CatalogError::EmptyHandle => ErrorReply {
            status: 400,
            code: String::from_str("validation_failed"),
            message: String::from_str("Product handle is required."),
        },
        CatalogError::DuplicateHandle { handle } => ErrorReply {
            status: 409,
            code: String::from_str("duplicate_product_handle"),
            message: String::from_str("Another product already uses this handle: ").concat(
                handle.as_str(),
            ),
        },
        CatalogError::ProductNotFound { .. } => ErrorReply {
            status: 404,
            code: String::from_str("not_found"),
            message: String::from_str("Product not found."),
        },
        CatalogError::Database(_) => internal_error_reply(),
        CatalogError::Pool(_) => internal_error_reply(),
    }
}

} // verus!
