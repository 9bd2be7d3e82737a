//! The envelope that every response to a caller is put into.

use vstd::prelude::*;
use vstd::string::*;

verus! {

/// The envelope of a response: whether the request succeeded, its data, and
/// what there is to say about it.
#[derive(Clone, Debug, PartialEq, Eq)]
pub struct QueryResponse {
    pub success: bool,
    pub data: Option<String>,
    pub error: Option<String>,
    pub message: Option<String>,
}

/// The model of a [`QueryResponse`].
pub struct QueryResponseView {
    pub success: bool,
    pub data: Option<Seq<char>>,
    pub error: Option<Seq<char>>,
    pub message: Option<Seq<char>>,
}

impl DeepView for QueryResponse {
    type V = QueryResponseView;

    open spec fn deep_view(&self) -> QueryResponseView {
        QueryResponseView {
            success: self.success,
            data: self.data.deep_view(),
            error: self.error.deep_view(),
            message: self.message.deep_view(),
        }
    }
}

/// The view of an optional text.
pub open spec fn optional_text(text: Option<&str>) -> Option<Seq<char>> {
    match text {
        Some(t) => Some(t@),
        None => None,
    }
}

/// An owned copy of an optional text.
fn owned(text: Option<&str>) -> (r: Option<String>)
    ensures
        r.deep_view() == optional_text(text),
{
    match text {
        Some(t) => Some(String::from_str(t)),
        None => None,
    }
}

/// Puts a response into its envelope.
pub fn make_query_response(
    success: bool,
    data: Option<&str>,
    error: Option<&str>,
    message: Option<&str>,
) -> (r: QueryResponse)
    ensures
        r.deep_view() == (QueryResponseView {
            success,
            data: optional_text(data),
            error: optional_text(error),
            message: optional_text(message),
        }),
{
    QueryResponse { success, data: owned(data), error: owned(error), message: owned(message) }
}

} // verus!
