use vstd::prelude::*;

verus! {

/// Server tells the client why it could not serve a request.
#[derive(Debug, Clone)]
pub struct ErrorMessage {
    pub message: String,
}

impl ErrorMessage {
    pub fn new(message: String) -> (res: Self)
        ensures
            res.message == message,
    {
        ErrorMessage { message }
    }
}

} // verus!
