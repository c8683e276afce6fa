//! The uniform success/error envelope wrapped around every reply.

use vstd::prelude::*;
use vstd::string::*;

verus! {

/// The body of every reply: either `data` or `error` is present, never both.
#[derive(Debug)]
pub struct ApiResponse<T> {
    pub success: bool,
    pub data: Option<T>,
    pub error: Option<String>,
}

impl<T> ApiResponse<T> {
    /// An envelope is well formed when it carries data exactly when it reports success,
    /// and an error message exactly when it does not.
    pub open spec fn well_formed(&self) -> bool {
        &&& self.success <==> self.data is Some
        &&& self.success <==> self.error is None
    }

    /// Wraps the payload of a successful operation.
    pub fn success(data: T) -> (r: Self)
        ensures
            r.success,
            r.data == Some(data),
            r.error is None,
            r.well_formed(),
    {
        ApiResponse { success: true, data: Some(data), error: None }
    }

    /// Wraps the human-readable message of a failed operation.
    pub fn error(message: &str) -> (r: Self)
        ensures
            !r.success,
            r.data is None,
            r.error is Some,
            r.error->0@ == message@,
            r.well_formed(),
    {
        ApiResponse { success: false, data: None, error: Some(String::from_str(message)) }
    }
}

} // verus!
