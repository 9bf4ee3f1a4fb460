//! The client builder: the options of a client before it is made.

use crate::client::OffClient;
use crate::web::{
    ascii_lowercase, default_header, to_ascii_lowercase, valid_header_text, DefaultHeader, HeaderKind,
};
use vstd::prelude::*;

verus! {

/// Authentication credentials: a user name and a password.
#[derive(Debug, PartialEq)]
pub struct Auth(pub String, pub String);

/// The Open Food Facts API client builder.
///
/// `Off::new(os).locale("fr").build()` makes a client whose default locale is
/// `fr`.
pub struct Off {
    /// The default locale. Should be a country code or "world".
    pub locale: String,
    /// The authentication credentials. Optional. Only needed for write operations.
    pub auth: Option<Auth>,
    /// The User-Agent header value to send on each request. Optional.
    pub user_agent: Option<String>,
}

/// The user agent that a new builder holds, on the operating system named `os`:
/// `OffRustClient - {os} - Version alpha - https://github.com/openfoodfacts/openfoodfacts-rust`.
pub open spec fn default_user_agent(os: Seq<char>) -> Seq<char> {
    "OffRustClient - "@ + os + " - Version alpha - https://github.com/openfoodfacts/openfoodfacts-rust"@
}

/// The text of the `Authorization` header for the given credentials:
/// `Basic {username}:{password}`.
pub open spec fn basic_auth_text(username: Seq<char>, password: Seq<char>) -> Seq<char> {
    "Basic "@ + username + ":"@ + password
}

/// The user agent a builder holds, by its view.
pub open spec fn user_agent_view(off: &Off) -> Option<Seq<char>> {
    match off.user_agent {
        Some(u) => Some(u@),
        None => None,
    }
}

/// The credentials a builder holds, by their views.
pub open spec fn auth_view(off: &Off) -> Option<(Seq<char>, Seq<char>)> {
    match off.auth {
        Some(a) => Some((a.0@, a.1@)),
        None => None,
    }
}

/// The headers that a client made from this builder sends with each request,
/// as (name, text) pairs: the user agent first, where one is set, then the
/// credentials, where they are set.
pub open spec fn default_header_texts(off: &Off) -> Seq<(HeaderKind, Seq<char>)> {
    let agent: Seq<(HeaderKind, Seq<char>)> = match user_agent_view(off) {
        Some(u) => seq![(HeaderKind::UserAgent, u)],
        None => seq![],
    };
    let credentials: Seq<(HeaderKind, Seq<char>)> = match auth_view(off) {
        Some((user, password)) => seq![(HeaderKind::Authorization, basic_auth_text(user, password))],
        None => seq![],
    };
    agent + credentials
}

/// The builder can make a client: each header text that it would send is one
/// that a header may hold (else making the client panics).
pub open spec fn buildable(off: &Off) -> bool {
    forall|i: int|
        0 <= i < default_header_texts(off).len() ==> valid_header_text(
            #[trigger] default_header_texts(off)[i].1,
        )
}

/// The header texts of a list of headers, as (name, text) pairs. Each header
/// that `build` makes holds the value made from its text (see `default_header`).
pub open spec fn header_texts(headers: Seq<DefaultHeader>) -> Seq<(HeaderKind, Seq<char>)> {
    headers.map_values(|h: DefaultHeader| h@)
}

impl Off {
    /// Creates a new builder with defaults, on the operating system named `os`:
    ///
    /// * The default locale is set to "world".
    /// * No authentication credentials
    /// * The user agent is set to
    ///   `OffRustClient - {OS name} - Version {version} - {github repo URL}`
    pub fn new(os: &str) -> (off: Self)
        ensures
            off.locale@ == "world"@,
            off.auth is None,
            user_agent_view(&off) == Some(default_user_agent(os@)),
    {
        let mut agent = String::from_str("OffRustClient - ");
        agent.append(os);
        agent.append(" - Version alpha - https://github.com/openfoodfacts/openfoodfacts-rust");
        Off { locale: String::from_str("world"), auth: None, user_agent: Some(agent) }
    }

    /// Sets the default locale.
    pub fn locale(self, value: &str) -> (off: Self)
        ensures
            off.locale@ == value@,
            off.auth == self.auth,
            off.user_agent == self.user_agent,
    {
        let mut off = self;
        off.locale = value.to_owned();
        off
    }

    /// Sets the authentication credentials.
    pub fn auth(self, username: &str, password: &str) -> (off: Self)
        ensures
            off.locale == self.locale,
            auth_view(&off) == Some((username@, password@)),
            off.user_agent == self.user_agent,
    {
        let mut off = self;
        off.auth = Some(Auth(username.to_owned(), password.to_owned()));
        off
    }

    /// Sets the user agent.
    pub fn user_agent(self, value: &str) -> (off: Self)
        ensures
            off.locale == self.locale,
            off.auth == self.auth,
            user_agent_view(&off) == Some(value@),
    {
        let mut off = self;
        off.user_agent = Some(value.to_owned());
        off
    }

    /// Whether the builder can make a client: each header text that the client
    /// would send is one that `HeaderValue::from_str` accepts.
    pub fn is_buildable(&self) -> (b: bool)
        ensures
            b == buildable(self),
    {
        let agent_ok = match &self.user_agent {
            Some(agent) => default_header(HeaderKind::UserAgent, agent.clone()).is_ok(),
            None => true,
        };
        let auth_ok = match &self.auth {
            Some(auth) => {
                let text = basic_auth(auth.0.as_str(), auth.1.as_str());
                default_header(HeaderKind::Authorization, text).is_ok()
            },
            None => true,
        };
        proof {
            let texts = default_header_texts(self);
            if agent_ok && auth_ok {
                assert forall|i: int| 0 <= i < texts.len() implies valid_header_text(
                    #[trigger] texts[i].1,
                ) by {
                    if self.user_agent is Some && i == 0 {
                    } else {
                    }
                }
            } else if !agent_ok {
                assert(valid_header_text(texts[0].1) == false);
            } else {
                let last = texts.len() - 1;
                assert(valid_header_text(texts[last].1) == false);
            }
        }
        agent_ok && auth_ok
    }

    /// Creates a new client with the current builder options: its default
    /// locale is the builder's, in ASCII lower case, and it sends the user
    /// agent and the credentials, where set, as headers with each request.
    /// After `build` is called, the builder is gone.
    pub fn build(self) -> (client: OffClient)
        requires
            buildable(&self),
        ensures
            client.locale@ == ascii_lowercase(self.locale@),
            header_texts(client.default_headers@) == default_header_texts(&self),
    {
        let ghost expected = default_header_texts(&self);
        let mut headers: Vec<DefaultHeader> = Vec::new();
        match self.user_agent {
            Some(agent) => {
                assert(expected[0].1 == agent@);
                headers.push(default_header(HeaderKind::UserAgent, agent).unwrap());
            },
            None => {},
        }
        let ghost agent_count = headers@.len();
        assert(header_texts(headers@) == expected.take(agent_count as int));
        match self.auth {
            Some(Auth(username, password)) => {
                let text = basic_auth(username.as_str(), password.as_str());
                assert(expected[agent_count as int].1 == text@);
                headers.push(default_header(HeaderKind::Authorization, text).unwrap());
            },
            None => {},
        }
        assert(header_texts(headers@) =~= expected);
        OffClient { locale: to_ascii_lowercase(self.locale.as_str()), default_headers: headers }
    }
}

/// `Basic {username}:{password}`.
fn basic_auth(username: &str, password: &str) -> (r: String)
    ensures
        r@ == basic_auth_text(username@, password@),
{
    let mut text = String::from_str("Basic ");
    text.append(username);
    text.append(":");
    text.append(password);
    text
}

} // verus!
