//! The client itself: one request plan per operation of the service.
//!
//! A `Basket` holds the credential and the base URL.  Each operation builds
//! a `HttpRequest`: the method, the resolved URL, and the query and form
//! pairs — everything a transport needs to issue the call, with nothing of
//! the transport in it.  Only the privileged operations attach the API key;
//! public subscribe and unsubscribe send no credential.

use vstd::prelude::*;
use vstd::string::*;

use crate::envelope::BasketError;
use crate::requests::Subscribe;
use crate::requests::SubscribeOpts;
use crate::requests::Unsubscribe;
use crate::requests::UpdateUser;
use crate::requests::UpdateUserOpts;
use crate::requests::comma_join;
use crate::requests::join_newsletters;
use crate::requests::pairs_view;
use crate::requests::push_pair;
use crate::requests::subscribe_opts_pairs;
use crate::requests::subscribe_pairs;
use crate::requests::unsubscribe_pairs;
use crate::requests::update_opts_pairs;
use crate::requests::update_user_pairs;
use crate::urls::url_as_str;
use crate::urls::url_join;
use crate::urls::url_join_of;
use crate::urls::url_text;
use crate::wire::YesNo;
use crate::wire::yes_no_word;

verus! {

/// The HTTP method of a request plan.
#[derive(Clone, Copy, PartialEq, Eq, Structural, Debug)]
pub enum Method {
    Get,
    Post,
}

/// A fully built request: everything the transport needs, as plain values.
#[derive(Debug)]
pub struct HttpRequest {
    pub method: Method,
    pub url: url::Url,
    pub query: Vec<(String, String)>,
    pub form: Option<Vec<(String, String)>>,
}

impl HttpRequest {
    /// The serialization of the request's URL.
    pub fn url_str(&self) -> (r: String)
        ensures
            r@ == url_text(self.url),
    {
        url_as_str(&self.url)
    }
}

/// A character an identifier-formatted token may hold: an ASCII letter, a
/// digit, or a hyphen.
pub open spec fn is_token_char(c: char) -> bool {
    ('a' <= c && c <= 'z') || ('A' <= c && c <= 'Z') || ('0' <= c && c <= '9') || c == '-'
}

/// An identifier-formatted token: non-empty, out of token characters only.
pub open spec fn is_valid_token(s: Seq<char>) -> bool {
    s.len() > 0 && (forall|i: int| 0 <= i < s.len() ==> is_token_char(s[i]))
}

fn token_char(c: char) -> (r: bool)
    ensures
        r == is_token_char(c),
{
    ('a' <= c && c <= 'z') || ('A' <= c && c <= 'Z') || ('0' <= c && c <= '9') || c == '-'
}

/// Decides whether a token is identifier-formatted.  Token-addressed
/// operations refuse any other token before building a request.
pub fn check_token(token: &str) -> (r: bool)
    ensures
        r == is_valid_token(token@),
{
    let n = token.unicode_len();
    if n == 0 {
        return false;
    }
    let mut i: usize = 0;
    while i < n
        invariant
            n == token@.len(),
            i <= n,
            forall|j: int| 0 <= j < i ==> is_token_char(token@[j]),
        decreases n - i,
    {
        let c = token.get_char(i);
        if !token_char(c) {
            return false;
        }
        i = i + 1;
    }
    true
}

/// The path of the unsubscribe operation for a user token.
pub open spec fn unsubscribe_path(token: Seq<char>) -> Seq<char> {
    "/news/unsubscribe/"@ + token + "/"@
}

/// The path of the get-user and update-user operations for a user token.
pub open spec fn user_path(token: Seq<char>) -> Seq<char> {
    "/news/user/"@ + token + "/"@
}

/// Builds the token-addressed path `prefix` + token + `/`.
fn token_path(prefix: &'static str, token: &str) -> (r: String)
    ensures
        r@ == prefix@ + token@ + "/"@,
{
    let mut s = String::from_str(prefix);
    s.append(token);
    s.append("/");
    s
}

/// The full subscribe form: `email`, the joined newsletter list, then the
/// pairs of whatever extension fields are set.
pub open spec fn subscribe_form(
    email: Seq<char>,
    newsletters: Seq<Seq<char>>,
    opts: Option<SubscribeOpts>,
) -> Seq<(Seq<char>, Seq<char>)> {
    seq![("email"@, email), ("newsletters"@, comma_join(newsletters))] + match opts {
        Some(o) => subscribe_opts_pairs(o),
        None => Seq::empty(),
    }
}

/// The full update form: `email`, then the pairs of whatever extension
/// fields are set.
pub open spec fn update_form(email: Seq<char>, opts: Option<UpdateUserOpts>) -> Seq<
    (Seq<char>, Seq<char>),
> {
    seq![("email"@, email)] + match opts {
        Some(o) => update_opts_pairs(o),
        None => Seq::empty(),
    }
}

/// The client: an opaque credential and the base URL of the service.
/// Construction is pure; a malformed pairing of base URL and path surfaces
/// only when an operation builds its request.
pub struct Basket {
    pub api_key: String,
    pub basket_url: url::Url,
}

impl Basket {
    /// Pure value construction: no I/O, no validation of the URL.
    pub fn new(api_key: String, basket_url: url::Url) -> (r: Basket)
        ensures
            r.api_key == api_key,
            r.basket_url == basket_url,
    {
        Basket { api_key, basket_url }
    }

    /// Resolves a relative path against the base URL, or fails with the
    /// transport-tier error.
    fn resolve(&self, path: &str) -> (r: Result<url::Url, BasketError>)
        ensures
            match url_join_of(url_text(self.basket_url), path@) {
                Some(u) => (r matches Ok(ru) && url_text(ru) == u),
                None => (r matches Err(e) && e matches BasketError::Url(_)),
            },
    {
        match url_join(&self.basket_url, path) {
            Ok(u) => Ok(u),
            Err(e) => Err(BasketError::Url(e)),
        }
    }

    /// The public subscribe request: a POST of the subscribe form, with no
    /// credential attached.
    pub fn subscribe_request(
        &self,
        email: &str,
        newsletters: &Vec<String>,
        opts: Option<SubscribeOpts>,
    ) -> (r: Result<HttpRequest, BasketError>)
        ensures
            match url_join_of(url_text(self.basket_url), "/news/subscribe/"@) {
                Some(u) => (r matches Ok(req) && req.method == Method::Post && url_text(req.url)
                    == u && req.query@.len() == 0 && (req.form matches Some(f) && pairs_view(f@)
                    == subscribe_form(email@, newsletters.deep_view(), opts))),
                None => (r matches Err(e) && e matches BasketError::Url(_)),
            },
    {
        let url = match self.resolve("/news/subscribe/") {
            Ok(u) => u,
            Err(e) => {
                return Err(e);
            },
        };
        let body = Subscribe {
            email: email.to_owned(),
            newsletters: join_newsletters(newsletters),
            opts,
        };
        let pairs = body.form_pairs();
        proof {
            assert(subscribe_pairs(body) =~= subscribe_form(
                email@,
                newsletters.deep_view(),
                opts,
            ));
        }
        Ok(HttpRequest { method: Method::Post, url, query: Vec::new(), form: Some(pairs) })
    }

    /// The privileged subscribe request: the same form, with the API key
    /// attached as the one query parameter.
    pub fn subscribe_private_request(
        &self,
        email: &str,
        newsletters: &Vec<String>,
        opts: Option<SubscribeOpts>,
    ) -> (r: Result<HttpRequest, BasketError>)
        ensures
            match url_join_of(url_text(self.basket_url), "/news/subscribe/"@) {
                Some(u) => (r matches Ok(req) && req.method == Method::Post && url_text(req.url)
                    == u && pairs_view(req.query@) == seq![("api-key"@, self.api_key@)] && (
                req.form matches Some(f) && pairs_view(f@) == subscribe_form(
                    email@,
                    newsletters.deep_view(),
                    opts,
                ))),
                None => (r matches Err(e) && e matches BasketError::Url(_)),
            },
    {
        let url = match self.resolve("/news/subscribe/") {
            Ok(u) => u,
            Err(e) => {
                return Err(e);
            },
        };
        let body = Subscribe {
            email: email.to_owned(),
            newsletters: join_newsletters(newsletters),
            opts,
        };
        let pairs = body.form_pairs();
        let mut query: Vec<(String, String)> = Vec::new();
        push_pair(&mut query, "api-key", self.api_key.clone());
        proof {
            assert(subscribe_pairs(body) =~= subscribe_form(
                email@,
                newsletters.deep_view(),
                opts,
            ));
            assert(pairs_view(query@) =~= seq![("api-key"@, self.api_key@)]);
        }
        Ok(HttpRequest { method: Method::Post, url, query, form: Some(pairs) })
    }

    /// The unsubscribe request for a user token: a POST of the joined
    /// newsletter list and the opt-out flag, with no credential attached.
    /// A token that is not identifier-formatted is refused before any
    /// request is built.
    pub fn unsubscribe_request(&self, token: &str, newsletters: &Vec<String>, optout: YesNo) -> (r:
        Result<HttpRequest, BasketError>)
        ensures
            !is_valid_token(token@) ==> (r matches Err(e) && e
                matches BasketError::InvalidTokenFormat),
            is_valid_token(token@) ==> match url_join_of(
                url_text(self.basket_url),
                unsubscribe_path(token@),
            ) {
                Some(u) => (r matches Ok(req) && req.method == Method::Post && url_text(req.url)
                    == u && req.query@.len() == 0 && (req.form matches Some(f) && pairs_view(f@)
                    == seq![
                    ("newsletters"@, comma_join(newsletters.deep_view())),
                    ("optout"@, yes_no_word(optout)),
                ])),
                None => (r matches Err(e) && e matches BasketError::Url(_)),
            },
    {
        if !check_token(token) {
            return Err(BasketError::InvalidTokenFormat);
        }
        let path = token_path("/news/unsubscribe/", token);
        let url = match self.resolve(path.as_str()) {
            Ok(u) => u,
            Err(e) => {
                return Err(e);
            },
        };
        let body = Unsubscribe { newsletters: join_newsletters(newsletters), optout };
        let pairs = body.form_pairs();
        proof {
            assert(unsubscribe_pairs(body) =~= seq![
                ("newsletters"@, comma_join(newsletters.deep_view())),
                ("optout"@, yes_no_word(optout)),
            ]);
        }
        Ok(HttpRequest { method: Method::Post, url, query: Vec::new(), form: Some(pairs) })
    }

    /// The get-user request for a user token: a bare GET.  A token that is
    /// not identifier-formatted is refused before any request is built.
    pub fn get_user_request(&self, token: &str) -> (r: Result<HttpRequest, BasketError>)
        ensures
            !is_valid_token(token@) ==> (r matches Err(e) && e
                matches BasketError::InvalidTokenFormat),
            is_valid_token(token@) ==> match url_join_of(
                url_text(self.basket_url),
                user_path(token@),
            ) {
                Some(u) => (r matches Ok(req) && req.method == Method::Get && url_text(req.url)
                    == u && req.query@.len() == 0 && req.form is None),
                None => (r matches Err(e) && e matches BasketError::Url(_)),
            },
    {
        if !check_token(token) {
            return Err(BasketError::InvalidTokenFormat);
        }
        let path = token_path("/news/user/", token);
        let url = match self.resolve(path.as_str()) {
            Ok(u) => u,
            Err(e) => {
                return Err(e);
            },
        };
        Ok(HttpRequest { method: Method::Get, url, query: Vec::new(), form: None })
    }

    /// The update-user request for a user token: a POST of the update form,
    /// which always carries the email and only the set extension fields.
    /// A token that is not identifier-formatted is refused before any
    /// request is built.
    pub fn update_user_request(&self, email: &str, token: &str, opts: Option<UpdateUserOpts>) -> (r:
        Result<HttpRequest, BasketError>)
        ensures
            !is_valid_token(token@) ==> (r matches Err(e) && e
                matches BasketError::InvalidTokenFormat),
            is_valid_token(token@) ==> match url_join_of(
                url_text(self.basket_url),
                user_path(token@),
            ) {
                Some(u) => (r matches Ok(req) && req.method == Method::Post && url_text(req.url)
                    == u && req.query@.len() == 0 && (req.form matches Some(f) && pairs_view(f@)
                    == update_form(email@, opts))),
                None => (r matches Err(e) && e matches BasketError::Url(_)),
            },
    {
        if !check_token(token) {
            return Err(BasketError::InvalidTokenFormat);
        }
        let path = token_path("/news/user/", token);
        let url = match self.resolve(path.as_str()) {
            Ok(u) => u,
            Err(e) => {
                return Err(e);
            },
        };
        let body = UpdateUser { email: Some(email.to_owned()), opts };
        let pairs = body.form_pairs();
        proof {
            assert(update_user_pairs(body) =~= update_form(email@, opts));
        }
        Ok(HttpRequest { method: Method::Post, url, query: Vec::new(), form: Some(pairs) })
    }

    /// The newsletters listing request: a bare GET.
    pub fn newsletters_request(&self) -> (r: Result<HttpRequest, BasketError>)
        ensures
            match url_join_of(url_text(self.basket_url), "/news/newsletters/"@) {
                Some(u) => (r matches Ok(req) && req.method == Method::Get && url_text(req.url)
                    == u && req.query@.len() == 0 && req.form is None),
                None => (r matches Err(e) && e matches BasketError::Url(_)),
            },
    {
        let url = match self.resolve("/news/newsletters/") {
            Ok(u) => u,
            Err(e) => {
                return Err(e);
            },
        };
        Ok(HttpRequest { method: Method::Get, url, query: Vec::new(), form: None })
    }

    /// The debug-user request: a GET with the email and the supertoken as
    /// query parameters.
    pub fn debug_user_request(&self, email: &str, supertoken: &str) -> (r: Result<
        HttpRequest,
        BasketError,
    >)
        ensures
            match url_join_of(url_text(self.basket_url), "/news/debug-user/"@) {
                Some(u) => (r matches Ok(req) && req.method == Method::Get && url_text(req.url)
                    == u && pairs_view(req.query@) == seq![
                    ("email"@, email@),
                    ("supertoken"@, supertoken@),
                ] && req.form is None),
                None => (r matches Err(e) && e matches BasketError::Url(_)),
            },
    {
        let url = match self.resolve("/news/debug-user/") {
            Ok(u) => u,
            Err(e) => {
                return Err(e);
            },
        };
        let mut query: Vec<(String, String)> = Vec::new();
        push_pair(&mut query, "email", email.to_owned());
        push_pair(&mut query, "supertoken", supertoken.to_owned());
        proof {
            assert(pairs_view(query@) =~= seq![("email"@, email@), ("supertoken"@, supertoken@)]);
        }
        Ok(HttpRequest { method: Method::Get, url, query, form: None })
    }

    /// The lookup-user request: a GET with the email and the API key as
    /// query parameters.
    pub fn lookup_user_request(&self, email: &str) -> (r: Result<HttpRequest, BasketError>)
        ensures
            match url_join_of(url_text(self.basket_url), "/news/lookup-user/"@) {
                Some(u) => (r matches Ok(req) && req.method == Method::Get && url_text(req.url)
                    == u && pairs_view(req.query@) == seq![
                    ("email"@, email@),
                    ("api-key"@, self.api_key@),
                ] && req.form is None),
                None => (r matches Err(e) && e matches BasketError::Url(_)),
            },
    {
        let url = match self.resolve("/news/lookup-user/") {
            Ok(u) => u,
            Err(e) => {
                return Err(e);
            },
        };
        let mut query: Vec<(String, String)> = Vec::new();
        push_pair(&mut query, "email", email.to_owned());
        push_pair(&mut query, "api-key", self.api_key.clone());
        proof {
            assert(pairs_view(query@) =~= seq![("email"@, email@), ("api-key"@, self.api_key@)]);
        }
        Ok(HttpRequest { method: Method::Get, url, query, form: None })
    }

    /// The recover request: a POST whose form carries the email alone.
    pub fn recover_request(&self, email: &str) -> (r: Result<HttpRequest, BasketError>)
        ensures
            match url_join_of(url_text(self.basket_url), "/news/recover/"@) {
                Some(u) => (r matches Ok(req) && req.method == Method::Post && url_text(req.url)
                    == u && req.query@.len() == 0 && (req.form matches Some(f) && pairs_view(f@)
                    == seq![("email"@, email@)])),
                None => (r matches Err(e) && e matches BasketError::Url(_)),
            },
    {
        let url = match self.resolve("/news/recover/") {
            Ok(u) => u,
            Err(e) => {
                return Err(e);
            },
        };
        let mut form: Vec<(String, String)> = Vec::new();
        push_pair(&mut form, "email", email.to_owned());
        proof {
            assert(pairs_view(form@) =~= seq![("email"@, email@)]);
        }
        Ok(HttpRequest { method: Method::Post, url, query: Vec::new(), form: Some(form) })
    }
}

} // verus!
