//! What the log says of requests.

use vstd::prelude::*;
use vstd::string::StringExecFns;

verus! {

/// Names the span of a request.
#[derive(Debug, Clone, Copy)]
pub struct RequestSpan {}

/// Words the line that is logged when a request is answered.
#[derive(Debug, Clone, Copy)]
pub struct ResponseFormat {}

impl RequestSpan {
    /// The name of the span of a request: its method, a colon and its URI.
    pub fn make_span(&self, method: &str, uri: &str) -> (name: String)
        ensures
            name@ == method@ + seq![':'] + uri@,
    {
        let mut name = method.to_owned();
        name.push(':');
        name.append(uri);
        name
    }
}

impl ResponseFormat {
    /// What is logged of the body of an answer: its size as text where the
    /// size is known, and the remark that there is none where it is not.
    pub fn on_response(&self, size: Option<String>) -> (text: String)
        ensures
            text@ == match size {
                Some(s) => s@,
                None => "no body"@,
            },
    {
        match size {
            Some(s) => s,
            None => "no body".to_owned(),
        }
    }
}

} // verus!
