//! The session: how it is opened, and what each request made within it
//! carries.

use vstd::prelude::*;
use vstd::string::StringExecFns;
use crate::codec::{encode_pairs, form_urlencoded, join_url, pairs_view, text_view, url_join};
use crate::envelope::{decode_login, login_tokens, RequestError, TokenResponse, TokenView};
use crate::method::Method;
use crate::request::{Header, Request};

verus! {

/// Why no client could be built.
#[derive(Clone, Debug, PartialEq, Eq)]
pub enum ClientBuildingError {
    /// A required setting was never supplied; the text names it.
    MissingParameter(&'static str),
    /// The login exchange failed, in transit or in what came back.
    TransportError(RequestError),
}

/// Collects the settings of a session before login.
#[derive(Clone, Debug)]
pub struct ClientBuilder {
    api_url: Option<String>,
    username: Option<String>,
    password: Option<String>,
}

/// An authenticated session: the base endpoint and the two tokens that the
/// login returned. Nothing in it changes after construction.
#[derive(Clone, Debug)]
pub struct Client {
    api_url: String,
    auth_token: String,
    csrf_token: String,
}

/// The view of an optional list of name/value pairs, form-encoded.
pub open spec fn encoded(pairs: Option<&Vec<(String, String)>>) -> Option<Seq<char>> {
    match pairs {
        Some(p) => Some(form_urlencoded(pairs_view(p@))),
        None => None,
    }
}

impl ClientBuilder {
    /// The base endpoint, where one was supplied.
    pub closed spec fn endpoint(&self) -> Option<Seq<char>> {
        text_view(self.api_url)
    }

    /// The user name, where one was supplied.
    pub closed spec fn user(&self) -> Option<Seq<char>> {
        text_view(self.username)
    }

    /// The password, where one was supplied.
    pub closed spec fn secret(&self) -> Option<Seq<char>> {
        text_view(self.password)
    }

    /// The first required setting that is still missing, by its name.
    pub open spec fn missing_parameter(&self) -> Option<Seq<char>> {
        if self.endpoint() is None {
            Some("API URL"@)
        } else if self.user() is None {
            Some("username"@)
        } else if self.secret() is None {
            Some("password"@)
        } else {
            None
        }
    }

    /// The address of the login exchange, where the endpoint admits one.
    pub open spec fn login_url(&self) -> Option<Seq<char>> {
        url_join(self.endpoint().unwrap(), "access/ticket"@)
    }

    /// The form that the login exchange posts.
    pub open spec fn login_form(&self) -> Seq<(Seq<char>, Seq<char>)> {
        seq![("password"@, self.secret().unwrap()), ("username"@, self.user().unwrap())]
    }

    /// Whether `e` is the error that names the first missing setting.
    pub open spec fn names_missing(&self, e: ClientBuildingError) -> bool {
        e matches ClientBuildingError::MissingParameter(n) && Some(n@) == self.missing_parameter()
    }

    /// Whether `request` is the login exchange at the address `url`: a POST
    /// of the credentials as a form, with no header and no query.
    pub open spec fn is_login_post(&self, request: Request, url: Seq<char>) -> bool {
        &&& request.method == Method::Post
        &&& request.url@ == url
        &&& request.query is None
        &&& request.headers@.len() == 0
        &&& text_view(request.body) == Some(form_urlencoded(self.login_form()))
    }

    /// Whether `r` is what planning the login at the address `url` has to
    /// give: the missing setting where there is one, else the login exchange.
    pub open spec fn is_login_plan_at(
        &self,
        url: Seq<char>,
        r: Result<Request, ClientBuildingError>,
    ) -> bool {
        match r {
            Ok(request) => self.missing_parameter() is None && self.is_login_post(request, url),
            Err(e) => self.names_missing(e),
        }
    }

    /// Whether `r` is what planning the login has to give: the missing
    /// setting where there is one, else the login exchange at the login
    /// address.
    pub open spec fn is_login_plan(&self, r: Result<Request, ClientBuildingError>) -> bool {
        match r {
            Ok(request) => Some(request.url@) == self.login_url() && self.is_login_plan_at(
                request.url@,
                r,
            ),
            Err(e) => self.names_missing(e),
        }
    }

    /// Whether `r` is what building has to give for the outcome of the login
    /// exchange: the missing setting first; else the failure of the exchange;
    /// else a client with the endpoint and the two tokens received.
    pub open spec fn is_built(
        &self,
        outcome: Result<TokenView, RequestError>,
        r: Result<Client, ClientBuildingError>,
    ) -> bool {
        match r {
            Ok(client) => {
                &&& self.missing_parameter() is None
                &&& outcome matches Ok(t)
                &&& Some(client.endpoint()) == self.endpoint()
                &&& client.session_token() == t.auth_token
                &&& client.csrf() == t.csrf_token
            },
            Err(e) => if self.missing_parameter() is Some {
                self.names_missing(e)
            } else {
                outcome matches Err(failure) && e == ClientBuildingError::TransportError(failure)
            },
        }
    }

    /// A builder with nothing set.
    pub fn new() -> (r: Self)
        ensures
            r.endpoint() is None,
            r.user() is None,
            r.secret() is None,
    {
        ClientBuilder { api_url: None, username: None, password: None }
    }

    /// Sets the base endpoint, an absolute URL.
    pub fn api_url(self, api_url: String) -> (r: Self)
        ensures
            r.endpoint() == Some(api_url@),
            r.user() == self.user(),
            r.secret() == self.secret(),
    {
        ClientBuilder { api_url: Some(api_url), username: self.username, password: self.password }
    }

    /// Sets the user name.
    pub fn username(self, username: String) -> (r: Self)
        ensures
            r.endpoint() == self.endpoint(),
            r.user() == Some(username@),
            r.secret() == self.secret(),
    {
        ClientBuilder { api_url: self.api_url, username: Some(username), password: self.password }
    }

    /// Sets the password.
    pub fn password(self, password: String) -> (r: Self)
        ensures
            r.endpoint() == self.endpoint(),
            r.user() == self.user(),
            r.secret() == Some(password@),
    {
        ClientBuilder { api_url: self.api_url, username: self.username, password: Some(password) }
    }

    /// The name of the first required setting that is missing.
    pub fn first_missing(&self) -> (r: Option<&'static str>)
        ensures
            r is Some <==> self.missing_parameter() is Some,
            r matches Some(n) ==> Some(n@) == self.missing_parameter(),
    {
        if self.api_url.is_none() {
            Some("API URL")
        } else if self.username.is_none() {
            Some("username")
        } else if self.password.is_none() {
            Some("password")
        } else {
            None
        }
    }

    /// Plans the login exchange around an address already resolved.
    ///
    /// Settings come first: with one missing there is nothing to
    /// send.
    pub fn login_request_at(&self, url: String) -> (r: Result<Request, ClientBuildingError>)
        ensures
            self.is_login_plan_at(url@, r),
    {
        match (&self.username, &self.password, self.first_missing()) {
            (Some(username), Some(password), None) => {
                let mut form: Vec<(String, String)> = Vec::new();
                form.push((String::from_str("password"), password.clone()));
                form.push((String::from_str("username"), username.clone()));
                assert(pairs_view(form@) =~= self.login_form());
                let body = encode_pairs(&form);
                Ok(
                    Request {
                        method: Method::Post,
                        url,
                        query: None,
                        headers: Vec::new(),
                        body: Some(body),
                    },
                )
            },
            (_, _, Some(name)) => Err(ClientBuildingError::MissingParameter(name)),
            _ => unreached(),
        }
    }

    /// Plans the login exchange: a form-encoded POST of the credentials to
    /// `access/ticket` below the endpoint.
    ///
    /// The endpoint has to admit that address.
    pub fn login_request(&self) -> (r: Result<Request, ClientBuildingError>)
        requires
            self.missing_parameter() is None ==> self.login_url() is Some,
        ensures
            self.is_login_plan(r),
    {
        match (self.first_missing(), &self.api_url) {
            (Some(name), _) => Err(ClientBuildingError::MissingParameter(name)),
            (None, Some(api_url)) => match join_url(api_url.as_str(), "access/ticket") {
                Some(url) => self.login_request_at(url),
                None => unreached(),
            },
            (None, None) => unreached(),
        }
    }

    /// Plans the login exchange where the endpoint admits the login address,
    /// and gives `None` where all settings are there and it does not.
    pub fn try_login_request(&self) -> (r: Option<Result<Request, ClientBuildingError>>)
        ensures
            r is None <==> self.missing_parameter() is None && self.login_url() is None,
            r matches Some(plan) ==> self.is_login_plan(plan),
    {
        match (&self.api_url, self.first_missing()) {
            (Some(api_url), None) => {
                if join_url(api_url.as_str(), "access/ticket").is_none() {
                    return None;
                }
                Some(self.login_request())
            },
            _ => Some(self.login_request()),
        }
    }

    /// Finishes the build from the decoded outcome of the login exchange.
    pub fn build_with(self, outcome: Result<TokenResponse, RequestError>) -> (r: Result<
        Client,
        ClientBuildingError,
    >)
        ensures
            self.is_built(
                match outcome {
                    Ok(t) => Ok(t@),
                    Err(e) => Err(e),
                },
                r,
            ),
    {
        match self.first_missing() {
            Some(name) => Err(ClientBuildingError::MissingParameter(name)),
            None => match (self.api_url, outcome) {
                (Some(api_url), Ok(tokens)) => Ok(
                    Client {
                        api_url,
                        auth_token: tokens.auth_token,
                        csrf_token: tokens.csrf_token,
                    },
                ),
                (_, Err(e)) => Err(ClientBuildingError::TransportError(e)),
                (None, Ok(_)) => unreached(),
            },
        }
    }

    /// Finishes the build from the raw outcome of the login exchange: the
    /// body received, or the transport's diagnostic.
    ///
    /// A missing setting is reported before the outcome is looked at. A
    /// failed exchange and a body that is no login envelope both end in a
    /// transport error; there is no client without both tokens.
    pub fn build(self, reply: Result<String, String>) -> (r: Result<Client, ClientBuildingError>)
        ensures
            self.is_built(
                match reply {
                    Err(m) => Err(RequestError::TransportError(m)),
                    Ok(body) => match login_tokens(body@) {
                        Some(t) => Ok(t),
                        None => Err(RequestError::DeserializationError),
                    },
                },
                r,
            ),
    {
        self.build_with(decode_login(reply))
    }
    /// A builder that lacks a required setting gives `MissingParameter`, from
    /// planning the login and from building alike and whatever the exchange
    /// would have brought, and the name is that of the first setting that is
    /// missing. Planning gives no request then, so nothing is sent.
    pub proof fn missing_setting_is_named(
        &self,
        plan: Result<Request, ClientBuildingError>,
        outcome: Result<TokenView, RequestError>,
        built: Result<Client, ClientBuildingError>,
    )
        requires
            self.endpoint() is None || self.user() is None || self.secret() is None,
            self.is_login_plan(plan),
            self.is_built(outcome, built),
        ensures
            plan matches Err(e) && self.names_missing(e),
            built matches Err(e) && self.names_missing(e),
            self.endpoint() is None ==> self.missing_parameter() == Some("API URL"@),
            self.endpoint() is Some && self.user() is None ==> self.missing_parameter() == Some(
                "username"@,
            ),
            self.endpoint() is Some && self.user() is Some ==> self.missing_parameter() == Some(
                "password"@,
            ),
    {
    }

    /// With all three settings there, building ends in one of two ways: a
    /// client that holds both tokens as they were received, or a transport
    /// error. Tokens that were received non-empty are non-empty in the
    /// client.
    pub proof fn build_gives_client_or_transport_error(
        &self,
        outcome: Result<TokenView, RequestError>,
        built: Result<Client, ClientBuildingError>,
    )
        requires
            self.missing_parameter() is None,
            self.is_built(outcome, built),
            outcome matches Ok(t) ==> t.auth_token.len() > 0 && t.csrf_token.len() > 0,
        ensures
            match built {
                Ok(client) => outcome is Ok && client.session_token().len() > 0
                    && client.csrf().len() > 0,
                Err(e) => outcome is Err && e is TransportError,
            },
    {
    }

    /// A login exchange that failed in transit builds no client: with all
    /// settings there the result is the transport error that wraps the
    /// failure.
    pub proof fn failed_login_builds_no_client(
        &self,
        failure: RequestError,
        built: Result<Client, ClientBuildingError>,
    )
        requires
            self.is_built(Err(failure), built),
        ensures
            built is Err,
            self.missing_parameter() is None ==> built == Err::<Client, ClientBuildingError>(
                ClientBuildingError::TransportError(failure),
            ),
    {
    }
}

impl Default for ClientBuilder {
    fn default() -> (r: Self)
        ensures
            r.endpoint() is None,
            r.user() is None,
            r.secret() is None,
    {
        ClientBuilder::new()
    }
}

impl Client {
    /// The base endpoint that paths are resolved against.
    pub closed spec fn endpoint(&self) -> Seq<char> {
        self.api_url@
    }

    /// The session token.
    pub closed spec fn session_token(&self) -> Seq<char> {
        self.auth_token@
    }

    /// The anti-forgery token.
    pub closed spec fn csrf(&self) -> Seq<char> {
        self.csrf_token@
    }

    /// The base endpoint that paths are resolved against.
    pub fn api_url(&self) -> (r: &str)
        ensures
            r@ == self.endpoint(),
    {
        self.api_url.as_str()
    }

    /// The session token.
    pub fn auth_token(&self) -> (r: &str)
        ensures
            r@ == self.session_token(),
    {
        self.auth_token.as_str()
    }

    /// The anti-forgery token.
    pub fn csrf_token(&self) -> (r: &str)
        ensures
            r@ == self.csrf(),
    {
        self.csrf_token.as_str()
    }

    /// The session cookie header.
    pub open spec fn cookie_header(&self) -> (Seq<char>, Seq<char>) {
        ("Cookie"@, "PVEAuthCookie="@ + self.session_token())
    }

    /// The anti-forgery header.
    pub open spec fn csrf_header(&self) -> (Seq<char>, Seq<char>) {
        ("CSRFPreventionToken"@, self.csrf())
    }

    /// The headers of a request with the given verb: the session cookie
    /// always, the anti-forgery token after it for the mutating verbs only.
    pub open spec fn headers_for(&self, method: Method) -> Seq<(Seq<char>, Seq<char>)> {
        if method.is_writing() {
            seq![self.cookie_header(), self.csrf_header()]
        } else {
            seq![self.cookie_header()]
        }
    }

    /// Whether `r` is the request planned for the given verb, resolved
    /// address, form and query.
    pub open spec fn is_plan(
        &self,
        r: Request,
        method: Method,
        url: Seq<char>,
        form: Option<&Vec<(String, String)>>,
        query: Option<&Vec<(String, String)>>,
    ) -> bool {
        &&& r.method == method
        &&& r.url@ == url
        &&& text_view(r.query) == encoded(query)
        &&& text_view(r.body) == encoded(form)
        &&& r.header_lines() == self.headers_for(method)
    }

    /// The address that `path` resolves to below the endpoint.
    pub open spec fn resolved(&self, path: Seq<char>) -> Option<Seq<char>> {
        url_join(self.endpoint(), path)
    }

    /// Adds the session cookie to a request.
    fn authorize(&self, request: Request) -> (r: Request)
        ensures
            r.method == request.method,
            r.url == request.url,
            r.query == request.query,
            r.body == request.body,
            r.header_lines() == request.header_lines().push(self.cookie_header()),
    {
        let value = String::from_str("PVEAuthCookie=").concat(self.auth_token.as_str());
        let mut headers = request.headers;
        headers.push(Header { name: String::from_str("Cookie"), value });
        let r = Request {
            method: request.method,
            url: request.url,
            query: request.query,
            headers,
            body: request.body,
        };
        assert(r.header_lines() =~= request.header_lines().push(self.cookie_header()));
        r
    }

    /// Adds the anti-forgery token to a request.
    fn protect_csrf(&self, request: Request) -> (r: Request)
        ensures
            r.method == request.method,
            r.url == request.url,
            r.query == request.query,
            r.body == request.body,
            r.header_lines() == request.header_lines().push(self.csrf_header()),
    {
        let mut headers = request.headers;
        headers.push(
            Header { name: String::from_str("CSRFPreventionToken"), value: self.csrf_token.clone() },
        );
        let r = Request {
            method: request.method,
            url: request.url,
            query: request.query,
            headers,
            body: request.body,
        };
        assert(r.header_lines() =~= request.header_lines().push(self.csrf_header()));
        r
    }

    /// Resolves `path` against the endpoint, by the joining rules of URLs;
    /// `None` where the two give no URL.
    pub fn resolve(&self, path: &str) -> (r: Option<String>)
        ensures
            text_view(r) == self.resolved(path@),
    {
        join_url(self.api_url.as_str(), path)
    }

    /// Plans a request to an address already resolved.
    ///
    /// The session cookie is always attached; the anti-forgery token exactly
    /// for POST, PUT and DELETE. A query and a form, where given, are
    /// form-encoded, whatever the verb.
    pub fn prepare(
        &self,
        method: Method,
        url: String,
        form: Option<&Vec<(String, String)>>,
        query: Option<&Vec<(String, String)>>,
    ) -> (r: Request)
        ensures
            self.is_plan(r, method, url@, form, query),
    {
        let mut request = Request {
            method,
            url,
            query: None,
            headers: Vec::new(),
            body: None,
        };
        assert(request.header_lines() =~= Seq::empty());
        request = self.authorize(request);
        if method.needs_csrf_token() {
            request = self.protect_csrf(request);
        }
        assert(request.header_lines() =~= self.headers_for(method));
        if let Some(query) = query {
            request.query = Some(encode_pairs(query));
        }
        if let Some(form) = form {
            request.body = Some(encode_pairs(form));
        }
        request
    }

    /// Plans a request to `path` below the endpoint: the general entry point.
    ///
    /// `path` has to resolve against the endpoint.
    pub fn request(
        &self,
        method: Method,
        path: &str,
        form: Option<&Vec<(String, String)>>,
        query: Option<&Vec<(String, String)>>,
    ) -> (r: Request)
        requires
            self.resolved(path@) is Some,
        ensures
            self.is_plan(r, method, self.resolved(path@).unwrap(), form, query),
    {
        match self.resolve(path) {
            Some(url) => self.prepare(method, url, form, query),
            None => unreached(),
        }
    }

    /// Plans a GET of `path`, with no query and no body.
    pub fn get(&self, path: &str) -> (r: Request)
        requires
            self.resolved(path@) is Some,
        ensures
            self.is_plan(r, Method::Get, self.resolved(path@).unwrap(), None, None),
    {
        self.request(Method::Get, path, None, None)
    }

    /// Plans a GET of `path` with the given query parameters.
    pub fn get_with_query(&self, path: &str, query: &Vec<(String, String)>) -> (r: Request)
        requires
            self.resolved(path@) is Some,
        ensures
            self.is_plan(r, Method::Get, self.resolved(path@).unwrap(), None, Some(query)),
    {
        self.request(Method::Get, path, None, Some(query))
    }

    /// Plans a POST to `path` with the given form as its body.
    pub fn post(&self, path: &str, body: &Vec<(String, String)>) -> (r: Request)
        requires
            self.resolved(path@) is Some,
        ensures
            self.is_plan(r, Method::Post, self.resolved(path@).unwrap(), Some(body), None),
    {
        self.request(Method::Post, path, Some(body), None)
    }

    /// As [`Client::request`], for any `path`: `None` exactly where `path`
    /// does not resolve against the endpoint.
    pub fn try_request(
        &self,
        method: Method,
        path: &str,
        form: Option<&Vec<(String, String)>>,
        query: Option<&Vec<(String, String)>>,
    ) -> (r: Option<Request>)
        ensures
            r is Some <==> self.resolved(path@) is Some,
            r matches Some(plan) ==> self.is_plan(
                plan,
                method,
                self.resolved(path@).unwrap(),
                form,
                query,
            ),
    {
        if self.resolve(path).is_none() {
            return None;
        }
        Some(self.request(method, path, form, query))
    }

    /// As [`Client::get`], for any `path`: `None` exactly where `path` does
    /// not resolve against the endpoint.
    pub fn try_get(&self, path: &str) -> (r: Option<Request>)
        ensures
            r is Some <==> self.resolved(path@) is Some,
            r matches Some(plan) ==> self.is_plan(
                plan,
                Method::Get,
                self.resolved(path@).unwrap(),
                None,
                None,
            ),
    {
        if self.resolve(path).is_none() {
            return None;
        }
        Some(self.get(path))
    }

    /// As [`Client::get_with_query`], for any `path`: `None` exactly where
    /// `path` does not resolve against the endpoint.
    pub fn try_get_with_query(&self, path: &str, query: &Vec<(String, String)>) -> (r: Option<
        Request,
    >)
        ensures
            r is Some <==> self.resolved(path@) is Some,
            r matches Some(plan) ==> self.is_plan(
                plan,
                Method::Get,
                self.resolved(path@).unwrap(),
                None,
                Some(query),
            ),
    {
        if self.resolve(path).is_none() {
            return None;
        }
        Some(self.get_with_query(path, query))
    }

    /// As [`Client::post`], for any `path`: `None` exactly where `path` does
    /// not resolve against the endpoint.
    pub fn try_post(&self, path: &str, body: &Vec<(String, String)>) -> (r: Option<Request>)
        ensures
            r is Some <==> self.resolved(path@) is Some,
            r matches Some(plan) ==> self.is_plan(
                plan,
                Method::Post,
                self.resolved(path@).unwrap(),
                Some(body),
                None,
            ),
    {
        if self.resolve(path).is_none() {
            return None;
        }
        Some(self.post(path, body))
    }

    /// A planned request carries the anti-forgery header exactly when its
    /// verb is POST, PUT or DELETE, and then with the session's token as its
    /// value.
    pub proof fn csrf_header_iff_writing(
        &self,
        r: Request,
        method: Method,
        url: Seq<char>,
        form: Option<&Vec<(String, String)>>,
        query: Option<&Vec<(String, String)>>,
    )
        requires
            self.is_plan(r, method, url, form, query),
        ensures
            r.has_header("CSRFPreventionToken"@) <==> method.is_writing(),
            method.is_writing() ==> r.header_lines().contains(self.csrf_header()),
    {
        reveal_strlit("CSRFPreventionToken");
        reveal_strlit("Cookie");
        let lines = r.header_lines();
        assert(lines[0] == self.cookie_header());
        if method.is_writing() {
            assert(lines[1] == self.csrf_header());
            assert(lines[1].0 == "CSRFPreventionToken"@);
        } else {
            assert("Cookie"@.len() != "CSRFPreventionToken"@.len());
        }
    }

    /// A planned request carries the session cookie first, whatever its
    /// verb.
    pub proof fn cookie_always_sent(
        &self,
        r: Request,
        method: Method,
        url: Seq<char>,
        form: Option<&Vec<(String, String)>>,
        query: Option<&Vec<(String, String)>>,
    )
        requires
            self.is_plan(r, method, url, form, query),
        ensures
            r.has_header("Cookie"@),
            r.header_lines().len() > 0,
            r.header_lines()[0] == self.cookie_header(),
    {
        let lines = r.header_lines();
        assert(lines[0] == self.cookie_header());
        assert(lines[0].0 == "Cookie"@);
    }
}

} // verus!
