//! Which responses get an error page, and which template renders it.

use vstd::prelude::*;

verus! {

/// Whether an HTTP status is a client error (400 to 499).
pub open spec fn is_client_error(status: u16) -> bool {
    400 <= status && status < 500
}

/// Whether an HTTP status is a server error (500 to 599).
pub open spec fn is_server_error(status: u16) -> bool {
    500 <= status && status < 600
}

/// Whether a response with this status is answered with an error page
/// in place of its own body: client and server errors are.
pub fn needs_error_page(status: u16) -> (page: bool)
    ensures
        page == (is_client_error(status) || is_server_error(status)),
{
    (400 <= status && status < 500) || (500 <= status && status < 600)
}

/// The template of the error page for a response with this status: the
/// server error page for server errors, the client error page otherwise.
pub fn error_template(status: u16) -> (template: &'static str)
    ensures
        template@ == if is_server_error(status) {
            "error/5xx.html"@
        } else {
            "error/4xx.html"@
        },
{
    if 500 <= status && status < 600 {
        "error/5xx.html"
    } else {
        "error/4xx.html"
    }
}

} // verus!
