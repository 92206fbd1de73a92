//! Connection management response shape.

use vstd::prelude::*;

verus! {

/// The outcome of one connection operation.
#[derive(Debug, Clone)]
pub struct ConnectionResponse {
    pub success: bool,
    pub error: Option<String>,
}

impl ConnectionResponse {
    /// A successful outcome.
    pub fn ok() -> (r: Self)
        ensures
            r.success,
            r.error is None,
    {
        ConnectionResponse { success: true, error: None }
    }

    /// A failed outcome carrying the error text.
    pub fn err(msg: String) -> (r: Self)
        ensures
            !r.success,
            match r.error {
                Some(e) => e@ == msg@,
                None => false,
            },
    {
        ConnectionResponse { success: false, error: Some(msg) }
    }
}

} // verus!
