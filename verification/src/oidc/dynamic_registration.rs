//! The registration of a client by the client itself: so far only the
//! record that such a registration would fill.

use vstd::prelude::*;

verus! {

/// What a client says of itself when it registers.
#[derive(Debug)]
pub struct OauthClient {
    /// The redirect URIs, as a JSON array of strings.
    pub redirect_uris: String,
    /// The response types that the client will use.
    pub response_types: String,
}

pub ghost struct OauthClientView {
    pub redirect_uris: Seq<char>,
    pub response_types: Seq<char>,
}

impl View for OauthClient {
    type V = OauthClientView;

    open spec fn view(&self) -> OauthClientView {
        OauthClientView {
            redirect_uris: self.redirect_uris@,
            response_types: self.response_types@,
        }
    }
}

impl OauthClient {
    /// A registration with the redirect URIs `redirect_uris` and every
    /// other member at its default: the response type is `code`.
    pub fn new(redirect_uris: String) -> (client: OauthClient)
        ensures
            client@ == (OauthClientView {
                redirect_uris: redirect_uris@,
                response_types: "code"@,
            }),
    {
        OauthClient { redirect_uris, response_types: "code".to_owned() }
    }
}

} // verus!
