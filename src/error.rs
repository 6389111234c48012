use vstd::prelude::*;

verus! {

/// What a reader of a post can run into.
#[derive(Copy, Clone, Debug, PartialEq, Eq, Structural)]
pub enum PostError {
    /// The route parameter is not a post id.
    InvalidId,
    /// No post carries the requested id.
    PostNotFound,
    /// The remote call itself did not complete.
    ServerError,
}

impl PostError {
    /// The human-readable sentence for this error.
    pub fn message(&self) -> (r: &'static str)
        ensures
            r@ == match *self {
                PostError::InvalidId => "Invalid post ID."@,
                PostError::PostNotFound => "Post not found."@,
                PostError::ServerError => "Server error."@,
            },
    {
        match self {
            PostError::InvalidId => "Invalid post ID.",
            PostError::PostNotFound => "Post not found.",
            PostError::ServerError => "Server error.",
        }
    }
}

/// A failure of the call mechanism between reader and store, independent of
/// the data asked for.
#[derive(Clone, Debug, PartialEq, Eq)]
pub struct TransportError {
    pub reason: String,
}

impl TransportError {
    pub fn new(reason: String) -> (r: TransportError)
        ensures
            r.reason == reason,
    {
        TransportError { reason }
    }
}

/// The domain outcome of a lookup response.
pub open spec fn resolve_spec<T>(response: Result<Option<T>, TransportError>) -> Result<T, PostError> {
    match response {
        Err(_) => Err(PostError::ServerError),
        Ok(None) => Err(PostError::PostNotFound),
        Ok(Some(v)) => Ok(v),
    }
}

/// Turns the response of a fallible lookup into the domain outcome: a failed
/// call is a server error, an empty answer means the post does not exist.
pub fn resolve<T>(response: Result<Option<T>, TransportError>) -> (r: Result<T, PostError>)
    ensures
        r == resolve_spec(response),
{
    match response {
        Err(_) => Err(PostError::ServerError),
        Ok(None) => Err(PostError::PostNotFound),
        Ok(Some(v)) => Ok(v),
    }
}

} // verus!
