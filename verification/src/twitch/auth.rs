//! The credentials the client uses with Twitch.

use vstd::prelude::*;
use crate::config::Config;
use crate::text::{copy_opt_string, starts_with};

verus! {

/// The application id and, when the user gave them, the OAuth token and login.
#[derive(Debug)]
pub struct Auth {
    pub client_id: String,
    pub oauth_token: Option<String>,
    pub username: Option<String>,
}

/// The scopes the client asks for when the user authorizes it.
pub open spec fn auth_scopes() -> Seq<char> {
    "chat:read+chat:edit+user:read:follows"@
}

/// The token as the chat server wants it: with the "oauth:" prefix, added
/// when it is missing.
pub open spec fn irc_token(token: Seq<char>) -> Seq<char> {
    let p = "oauth:"@;
    if p.len() <= token.len() && token.subrange(0, p.len() as int) == p {
        token
    } else {
        p + token
    }
}

impl Clone for Auth {
    fn clone(&self) -> (res: Self)
        ensures
            res == *self,
    {
        Auth {
            client_id: self.client_id.clone(),
            oauth_token: copy_opt_string(&self.oauth_token),
            username: copy_opt_string(&self.username),
        }
    }
}

impl Auth {
    /// The credentials of the Twitch section of the settings.
    pub fn from_config(config: &Config) -> (res: Self)
        ensures
            res.client_id == config.twitch.client_id,
            res.oauth_token == config.twitch.oauth_token,
            res.username == config.twitch.username,
    {
        Auth {
            client_id: config.twitch.client_id.clone(),
            oauth_token: copy_opt_string(&config.twitch.oauth_token),
            username: copy_opt_string(&config.twitch.username),
        }
    }

    /// Whether the user gave an OAuth token.
    pub fn has_token(&self) -> (res: bool)
        ensures
            res == self.oauth_token.is_some(),
    {
        self.oauth_token.is_some()
    }

    /// The page where the user authorizes the client and receives a token.
    pub fn auth_page_url(&self) -> (res: String)
        ensures
            res@ == "https://id.twitch.tv/oauth2/authorize?response_type=token&client_id="@
                + self.client_id@ + "&redirect_uri=http://localhost&scope="@ + auth_scopes(),
    {
        let mut url = String::from_str(
            "https://id.twitch.tv/oauth2/authorize?response_type=token&client_id=",
        );
        url.append(self.client_id.as_str());
        url.append("&redirect_uri=http://localhost&scope=");
        url.append("chat:read+chat:edit+user:read:follows");
        url
    }

    /// The value of the Authorization header: "Bearer " and the token, when
    /// there is one.
    pub fn bearer(&self) -> (res: Option<String>)
        ensures
            self.oauth_token.is_none() ==> res.is_none(),
            self.oauth_token matches Some(t) ==> res matches Some(v) && v@ == "Bearer "@ + t@,
    {
        match &self.oauth_token {
            Some(t) => Some(String::from_str("Bearer ").concat(t.as_str())),
            None => None,
        }
    }

    /// The request that checks the token: the validation address and the
    /// Authorization header value; an error when there is no token.
    pub fn validation_request(&self) -> (res: Result<(String, String), String>)
        ensures
            self.oauth_token.is_none() ==> (res matches Err(e) && e@ == "No token set"@),
            self.oauth_token matches Some(t) ==> (res matches Ok((url, value)) && url@
                == "https://id.twitch.tv/oauth2/validate"@ && value@ == "Bearer "@ + t@),
    {
        match self.bearer() {
            Some(value) => Ok((String::from_str("https://id.twitch.tv/oauth2/validate"), value)),
            None => Err(String::from_str("No token set")),
        }
    }

    /// The login and token for an authenticated chat connection: both need
    /// a non-empty login and a token; otherwise chat is read anonymously.
    pub fn chat_login(&self) -> (res: Option<(String, String)>)
        ensures
            res.is_some() == (self.username matches Some(u) && u@.len() > 0
                && self.oauth_token.is_some()),
            res matches Some((u, t)) ==> u@ == self.username.unwrap()@
                && t@ == irc_token(self.oauth_token.unwrap()@),
    {
        match (&self.username, &self.oauth_token) {
            (Some(u), Some(t)) => {
                if u.as_str().is_empty() {
                    return None;
                }
                let token = if starts_with(t.as_str(), "oauth:") {
                    t.clone()
                } else {
                    String::from_str("oauth:").concat(t.as_str())
                };
                Some((u.clone(), token))
            },
            _ => None,
        }
    }
}

} // verus!
