//! The OpenID configuration and the values exchanged with the identity
//! provider.  The HTTP exchange itself lives at the unverified edge.

use vstd::prelude::*;

use crate::json::{json_string, json_string_of};

verus! {

/// The configuration for the OpenID server.
#[derive(Debug)]
pub struct OpenId {
    /// Whether other authentication methods than OpenID are allowed.
    pub only: bool,

    /// The root under which this server can contact the OpenID server.
    pub root: String,

    /// The publicly accessible root of the OpenID server.
    pub public_root: String,

    /// The client id.
    pub client: String,

    /// The client secret.
    pub secret: String,

    /// The public key for token validation.
    pub validation: String,

    /// The http proxy, if required.
    pub http_proxy: Option<String>,

    /// The https proxy, if required.
    pub https_proxy: Option<String>,
}

/// The public JSON form of the OpenID configuration: only what a client
/// needs, never the secret.
pub open spec fn openid_json(o: OpenId) -> Seq<char> {
    "{\"only\":"@ + crate::json::bool_json(o.only) + ",\"root\":"@ + json_string(o.public_root@)
        + ",\"client\":"@ + json_string(o.client@) + "}"@
}

impl OpenId {
    /// The route of the token endpoint under the server root.
    pub fn token_route(&self) -> (r: String)
        ensures
            r@ == self.root@ + "/protocol/openid-connect/token"@,
    {
        let mut out = self.root.clone();
        out.append("/protocol/openid-connect/token");
        out
    }

    /// The public JSON form of the configuration.
    pub fn to_json(&self) -> (r: String)
        ensures
            r@ == openid_json(*self),
    {
        let mut out = "{\"only\":".to_owned();
        out.append(crate::json::bool_json_of(self.only));
        out.append(",\"root\":");
        out.append(json_string_of(self.public_root.as_str()).as_str());
        out.append(",\"client\":");
        out.append(json_string_of(self.client.as_str()).as_str());
        out.append("}");
        out
    }

    /// The token request for an authorization code.
    pub fn token_request(&self, redirect_uri: String, code: String) -> (r: OpenIdTokenRequest)
        ensures
            r.grant_type@ == "authorization_code"@,
            r.client_id == self.client,
            r.client_secret == self.secret,
            r.redirect_uri == redirect_uri,
            r.code == code,
    {
        OpenIdTokenRequest {
            grant_type: "authorization_code".to_owned(),
            client_id: self.client.clone(),
            client_secret: self.secret.clone(),
            redirect_uri,
            code,
        }
    }
}

/// An OpenID token request.
#[derive(Debug)]
pub struct OpenIdTokenRequest {
    /// The grant type, always the authorization code.
    pub grant_type: String,

    /// The id of the client.
    pub client_id: String,

    /// The secret of the client.
    pub client_secret: String,

    /// The redirect URL that was initially given.
    pub redirect_uri: String,

    /// The code given after the redirection.
    pub code: String,
}

/// An OpenID token response.
#[derive(Debug)]
pub struct OpenIdTokenResponse {
    /// The token.
    pub access_token: String,
}

/// What the token's claims carry.
#[derive(Debug)]
pub struct Claims {
    /// The email of the user.
    pub email: String,

    /// The username of the user.
    pub username: String,
}

} // verus!
