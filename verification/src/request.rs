use vstd::prelude::*;

verus! {

/// The name of the header that carries the caller's token.
pub const TOKEN_HEADER: &'static str = "X-Riot-Token";

/// One `GET` for the caller to perform: the address, and the token to send in
/// the `X-Riot-Token` header where the service asks for one.
#[derive(Debug, Clone, PartialEq)]
pub struct Request {
    pub url: String,
    pub token: Option<String>,
}

pub ghost struct RequestView {
    pub url: Seq<char>,
    pub token: Option<Seq<char>>,
}

impl View for Request {
    type V = RequestView;

    open spec fn view(&self) -> RequestView {
        RequestView {
            url: self.url@,
            token: self.token.deep_view(),
        }
    }
}

impl DeepView for Request {
    type V = RequestView;

    open spec fn deep_view(&self) -> RequestView {
        self.view()
    }
}

/// A request that carries `token`.
pub open spec fn authorized(url: Seq<char>, token: Seq<char>) -> RequestView {
    RequestView { url, token: Some(token) }
}

/// A request that carries no token.
pub open spec fn anonymous(url: Seq<char>) -> RequestView {
    RequestView { url, token: None }
}

} // verus!
