//! The addresses of the OAuth sign-in flow, assembled from configuration.
use vstd::prelude::*;
use crate::form::{form_encode, form_encoded};

verus! {

/// The four values that the sign-in flow records for a session.
pub struct Authorization(pub String, pub String, pub String, pub String);

/// The OAuth client this server signs users in as.
pub struct GoogleCredentials {
    pub client_id: String,
    pub client_secret: String,
    pub redirect_uri: String,
}

/// The server's own addresses: the origin allowed to read responses, and
/// where a finished sign-in returns to.
pub struct KrumiConfiguration {
    pub cors_origin: String,
    pub auth_uri: String,
}

/// What the server is configured with.
pub struct Configuration {
    pub addr: String,
    pub google: GoogleCredentials,
    pub krumi: KrumiConfiguration,
}

/// The addresses of the sign-in flow.
pub struct AuthorizationUrls {
    /// Where a user is sent to start signing in.
    pub init: String,
    /// Where codes are exchanged for tokens, and the client that does so.
    pub exchange: (String, GoogleCredentials),
    /// Where a token is exchanged for the user's profile.
    pub identify: String,
    /// Where a finished sign-in returns to.
    pub callback: String,
    pub cors_origin: String,
}

/// One `name=value` pair of a form-encoded query.
pub open spec fn pair_spec(name: Seq<char>, value: Seq<char>) -> Seq<char> {
    form_encoded(name) + "="@ + form_encoded(value)
}

/// The address that starts the sign-in flow for `google`'s client.
pub open spec fn init_spec(google: GoogleCredentials) -> Seq<char> {
    "https://accounts.google.com/o/oauth2/v2/auth?"@ + pair_spec("response_type"@, "code"@) + "&"@
        + pair_spec("client_id"@, google.client_id@) + "&"@ + pair_spec(
        "redirect_uri"@,
        google.redirect_uri@,
    ) + "&"@ + pair_spec("scope"@, "email profile"@)
}

fn push_pair(out: &mut String, name: &str, value: &str)
    ensures
        final(out)@ == old(out)@ + pair_spec(name@, value@),
{
    out.append(form_encode(name).as_str());
    out.append("=");
    out.append(form_encode(value).as_str());
    assert(out@ =~= old(out)@ + pair_spec(name@, value@));
}

fn copy_credentials(c: &GoogleCredentials) -> (r: GoogleCredentials)
    ensures
        r == *c,
{
    GoogleCredentials {
        client_id: c.client_id.clone(),
        client_secret: c.client_secret.clone(),
        redirect_uri: c.redirect_uri.clone(),
    }
}

impl AuthorizationUrls {
    /// The addresses of the sign-in flow for `configuration`: the Google
    /// consent page with this client's query, Google's token and profile
    /// endpoints, and the server's own callback and origin.
    pub fn open(configuration: &Configuration) -> (r: AuthorizationUrls)
        ensures
            r.init@ == init_spec(configuration.google),
            r.exchange.0@ == "https://oauth2.googleapis.com/token"@,
            r.exchange.1 == configuration.google,
            r.identify@ == "https://www.googleapis.com/oauth2/v2/userinfo"@,
            r.callback == configuration.krumi.auth_uri,
            r.cors_origin == configuration.krumi.cors_origin,
    {
        let google = &configuration.google;
        let mut init = "https://accounts.google.com/o/oauth2/v2/auth?".to_owned();
        push_pair(&mut init, "response_type", "code");
        init.append("&");
        push_pair(&mut init, "client_id", google.client_id.as_str());
        init.append("&");
        push_pair(&mut init, "redirect_uri", google.redirect_uri.as_str());
        init.append("&");
        push_pair(&mut init, "scope", "email profile");
        assert(init@ =~= init_spec(configuration.google));
        AuthorizationUrls {
            init,
            cors_origin: configuration.krumi.cors_origin.clone(),
            identify: "https://www.googleapis.com/oauth2/v2/userinfo".to_owned(),
            exchange: ("https://oauth2.googleapis.com/token".to_owned(), copy_credentials(google)),
            callback: configuration.krumi.auth_uri.clone(),
        }
    }
}

} // verus!
