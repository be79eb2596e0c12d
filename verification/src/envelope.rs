//! Response envelopes: the answer to one call, and the answer to a batch.

use crate::error::ErrorCode;
use crate::ident::{Id, IdView};
use vstd::prelude::*;

verus! {

/// The JSON text of the response object that carries `id` and an error object
/// made of `code`, `message` and, where there is one, the string `data`.
pub uninterp spec fn error_text(
    id: IdView,
    code: int,
    message: Seq<char>,
    data: Option<Seq<char>>,
) -> Seq<char>;

/// Calls `jsonrpsee_core::server::helpers::MethodResponse::error` on an error
/// object built by `jsonrpsee_types::ErrorObject::owned`, and hands out the
/// text it serialised. The text is a function of the four arguments alone;
/// the contract gives it its name and states nothing else about it.
#[verifier::external_body]
fn render_error(id: &Id, code: i32, message: &str, data: Option<&str>) -> (text: String)
    ensures
        text@ == error_text(
            id@,
            code as int,
            message@,
            match data {
                Some(d) => Some(d@),
                None => None,
            },
        ),
{
    let id = match id {
        Id::Null => jsonrpsee_types::Id::Null,
        Id::Number(n) => jsonrpsee_types::Id::Number(*n),
        Id::Str(s) => jsonrpsee_types::Id::Str(s.as_str().into()),
    };
    let error = jsonrpsee_types::ErrorObject::owned(code, message, data);
    jsonrpsee_core::server::helpers::MethodResponse::error(id, error).result
}

/// The mathematical value of a [`MethodResponse`].
pub struct MethodResponseView {
    pub result: Seq<char>,
    pub success: bool,
}

/// The answer to one call: the serialised envelope, and whether the call
/// succeeded.
#[derive(Debug, Clone, PartialEq, Eq)]
pub struct MethodResponse {
    pub result: String,
    pub success: bool,
}

impl View for MethodResponse {
    type V = MethodResponseView;

    open spec fn view(&self) -> MethodResponseView {
        MethodResponseView { result: self.result@, success: self.success }
    }
}

/// The failed answer that carries `id` and the error `code`.
pub open spec fn error_response(id: IdView, code: ErrorCode) -> MethodResponseView {
    MethodResponseView {
        result: error_text(id, code.spec_code(), code.spec_message(), None),
        success: false,
    }
}

impl MethodResponse {
    /// The failed answer to the call `id`, with one of the transport's own
    /// error codes.
    pub fn error(id: &Id, code: ErrorCode) -> (out: MethodResponse)
        ensures
            out@ == error_response(id@, code),
    {
        let result = render_error(id, code.code(), code.message(), None);
        MethodResponse { result, success: false }
    }

    /// The failed answer to the call `id`, with an error object of the
    /// caller's choice.
    pub fn custom_error(id: &Id, code: i32, message: &str, data: Option<&str>) -> (out:
        MethodResponse)
        ensures
            !out.success,
            out.result@ == error_text(
                id@,
                code as int,
                message@,
                match data {
                    Some(d) => Some(d@),
                    None => None,
                },
            ),
    {
        MethodResponse { result: render_error(id, code, message, data), success: false }
    }
}

/// The envelopes of `items` in their order, with a comma between each two.
pub open spec fn separated(items: Seq<Seq<char>>) -> Seq<char>
    decreases items.len(),
{
    if items.len() == 0 {
        Seq::empty()
    } else if items.len() == 1 {
        items[0]
    } else {
        separated(items.drop_last()) + seq![','] + items.last()
    }
}

/// The JSON array that holds the envelopes of `items` in their order.
pub open spec fn batch_text(items: Seq<Seq<char>>) -> Seq<char> {
    seq!['['] + separated(items) + seq![']']
}

/// The views of a list of answers.
pub open spec fn response_views(responses: Seq<MethodResponse>) -> Seq<MethodResponseView> {
    Seq::new(responses.len(), |i: int| responses[i]@)
}

/// The envelopes that `responses` carry, in their order.
pub open spec fn texts(responses: Seq<MethodResponseView>) -> Seq<Seq<char>> {
    Seq::new(responses.len(), |i: int| responses[i].result)
}

/// Joins the envelopes of a batch into one JSON array, in the order in which
/// they were produced.
pub fn collect_batch_response(responses: &Vec<MethodResponse>) -> (body: String)
    ensures
        body@ == batch_text(texts(response_views(responses@))),
{
    proof {
        reveal_strlit("[");
        reveal_strlit(",");
        reveal_strlit("]");
    }
    let n = responses.len();
    let mut body = String::from_str("[");
    let mut i: usize = 0;
    let ghost all = texts(response_views(responses@));
    while i < n
        invariant
            n == responses.len(),
            i <= n,
            all == texts(response_views(responses@)),
            body@ == seq!['['] + separated(all.take(i as int)),
        decreases n - i,
    {
        proof {
            reveal_strlit(",");
            assert(all.take(i as int + 1).drop_last() == all.take(i as int));
        }
        if i > 0 {
            body.append(",");
        }
        body.append(responses[i].result.as_str());
        i += 1;
    }
    assert(all.take(n as int) == all);
    body.append("]");
    body
}

} // verus!
