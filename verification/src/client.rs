//! The client: its configuration, the requests it makes and what it makes of
//! the answers.

use crate::data_source::{DataSource, DataSourceView};
use crate::error::{Error, ErrorView};
use crate::ids::{Id, IdView};
use crate::request::{Pair, Request, RequestView};
use crate::status::{status_line, Status};
use std::time::Duration;
use vstd::prelude::*;

verus! {

/// The address of the service.
pub const DEFAULT_BASE_URL: &'static str = "https://api-public.cs-prod.leetify.com";

/// The header that carries the API key.
pub const API_KEY_HEADER: &'static str = "_leetify_key";

/// The seconds after which a request is given up, unless the builder is told
/// otherwise.
pub const DEFAULT_TIMEOUT_SECS: u64 = 30;

/// The span of time that `Duration::from_secs` makes of a number of seconds.
pub uninterp spec fn duration_of_secs(secs: u64) -> Duration;

/// `std::time::Duration::from_secs` makes a span of whole seconds. The span
/// depends on the number alone, so it is known here by the number: nothing
/// else is claimed of it.
pub assume_specification[ Duration::from_secs ](secs: u64) -> (d: Duration)
    ensures
        d == duration_of_secs(secs),
;

/// The text of an optional `String`.
pub open spec fn text_of(text: Option<String>) -> Option<Seq<char>> {
    match text {
        Some(t) => Some(t@),
        None => None,
    }
}

/// A client's configuration while it is being put together.
#[derive(Debug)]
pub struct ClientBuilder {
    pub base_url: Option<String>,
    pub api_key: Option<String>,
    pub timeout: Option<Duration>,
}

/// What a [`ClientBuilder`] stands for.
pub struct ClientBuilderView {
    pub base_url: Option<Seq<char>>,
    pub api_key: Option<Seq<char>>,
    pub timeout: Option<Duration>,
}

/// What a [`Client`] stands for: the address of the service, the API key if
/// there is one, and the time after which a request is given up.
pub struct ClientView {
    pub base_url: Seq<char>,
    pub api_key: Option<Seq<char>>,
    pub timeout: Duration,
}

impl ClientBuilderView {
    /// The builder as it starts out: no address, no key, and the default
    /// timeout.
    pub open spec fn fresh() -> ClientBuilderView {
        ClientBuilderView {
            base_url: None,
            api_key: None,
            timeout: Some(duration_of_secs(DEFAULT_TIMEOUT_SECS)),
        }
    }

    /// The builder with the address of the service set.
    pub open spec fn with_base_url(self, url: Seq<char>) -> ClientBuilderView {
        ClientBuilderView { base_url: Some(url), ..self }
    }

    /// The builder with the API key set.
    pub open spec fn with_api_key(self, key: Seq<char>) -> ClientBuilderView {
        ClientBuilderView { api_key: Some(key), ..self }
    }

    /// The builder with the timeout set.
    pub open spec fn with_timeout(self, timeout: Duration) -> ClientBuilderView {
        ClientBuilderView { timeout: Some(timeout), ..self }
    }

    /// The client that the builder makes. Where no address was set the
    /// service's own stands in, and where no timeout is set the default.
    pub open spec fn built(self) -> ClientView {
        ClientView {
            base_url: match self.base_url {
                Some(url) => url,
                None => DEFAULT_BASE_URL@,
            },
            api_key: self.api_key,
            timeout: match self.timeout {
                Some(timeout) => timeout,
                None => duration_of_secs(DEFAULT_TIMEOUT_SECS),
            },
        }
    }
}

impl View for ClientBuilder {
    type V = ClientBuilderView;

    open spec fn view(&self) -> ClientBuilderView {
        ClientBuilderView {
            base_url: text_of(self.base_url),
            api_key: text_of(self.api_key),
            timeout: self.timeout,
        }
    }
}

impl ClientBuilder {
    /// A builder with the default settings.
    pub fn new() -> (r: Self)
        ensures
            r@ == ClientBuilderView::fresh(),
    {
        ClientBuilder {
            base_url: None,
            api_key: None,
            timeout: Some(Duration::from_secs(DEFAULT_TIMEOUT_SECS)),
        }
    }

    /// Sets the address of the service.
    pub fn base_url(self, url: &str) -> (r: Self)
        ensures
            r@ == self@.with_base_url(url@),
    {
        let mut builder = self;
        builder.base_url = Some(url.to_owned());
        builder
    }

    /// Sets the API key.
    pub fn api_key(self, key: &str) -> (r: Self)
        ensures
            r@ == self@.with_api_key(key@),
    {
        let mut builder = self;
        builder.api_key = Some(key.to_owned());
        builder
    }

    /// Sets the time after which a request is given up.
    pub fn timeout(self, timeout: Duration) -> (r: Self)
        ensures
            r@ == self@.with_timeout(timeout),
    {
        let mut builder = self;
        builder.timeout = Some(timeout);
        builder
    }

    /// Makes the client.
    pub fn build(self) -> (r: Client)
        ensures
            r@ == self@.built(),
    {
        let base_url = match self.base_url {
            Some(url) => url,
            None => DEFAULT_BASE_URL.to_owned(),
        };
        let timeout = match self.timeout {
            Some(timeout) => timeout,
            None => Duration::from_secs(DEFAULT_TIMEOUT_SECS),
        };
        Client { base_url, api_key: self.api_key, timeout }
    }
}

impl Default for ClientBuilder {
    fn default() -> (r: Self)
        ensures
            r@ == ClientBuilderView::fresh(),
    {
        ClientBuilder::new()
    }
}

/// A client of the service. It holds its configuration and nothing else, and
/// the configuration does not change once the client is made.
#[derive(Debug)]
pub struct Client {
    base_url: String,
    api_key: Option<String>,
    timeout: Duration,
}

impl View for Client {
    type V = ClientView;

    closed spec fn view(&self) -> ClientView {
        ClientView {
            base_url: self.base_url@,
            api_key: text_of(self.api_key),
            timeout: self.timeout,
        }
    }
}

/// The headers that carry the API key: one where there is a key, none where
/// there is not.
pub open spec fn auth_headers(api_key: Option<Seq<char>>) -> Seq<Pair> {
    match api_key {
        Some(key) => seq![(API_KEY_HEADER@, key)],
        None => Seq::empty(),
    }
}

/// The query parameter that names a player: `steam64_id` for a Steam64
/// identifier, `id` for one of the service's own.
pub open spec fn profile_query(id: IdView) -> Seq<Pair> {
    match id {
        IdView::Steam64(text) => seq![("steam64_id"@, text)],
        IdView::Leetify(text) => seq![("id"@, text)],
    }
}

impl ClientView {
    /// A request to `path` on the service, with the key if there is one.
    pub open spec fn request(self, path: Seq<char>, query: Seq<Pair>) -> RequestView {
        RequestView {
            url: self.base_url + path,
            query,
            headers: auth_headers(self.api_key),
        }
    }

    /// The request for a player's profile.
    pub open spec fn profile_request(self, id: IdView) -> RequestView {
        self.request("/v3/profile"@, profile_query(id))
    }

    /// The request for a player's matches.
    pub open spec fn profile_matches_request(self, id: IdView) -> RequestView {
        self.request("/v3/profile/matches"@, profile_query(id))
    }

    /// The request for a match by the service's own identifier of it.
    pub open spec fn match_by_game_id_request(self, game_id: Seq<char>) -> RequestView {
        self.request("/v2/matches/"@ + game_id, Seq::empty())
    }

    /// The request for a match by its data source and the identifier that the
    /// source gave it.
    pub open spec fn match_by_data_source_request(
        self,
        data_source: DataSourceView,
        data_source_id: Seq<char>,
    ) -> RequestView {
        self.request(
            "/v2/matches/"@ + data_source.canonical() + "/"@ + data_source_id,
            Seq::empty(),
        )
    }

    /// The request that asks whether the API key is valid.
    pub open spec fn validate_api_key_request(self) -> RequestView {
        self.request("/api-key/validate"@, Seq::empty())
    }
}

/// The error for an answer whose status is no success.
pub open spec fn failure_of(code: u16, body: Seq<char>) -> ErrorView {
    if code == 401 {
        ErrorView::InvalidApiKey
    } else if code == 500 {
        ErrorView::ServerError
    } else {
        ErrorView::Api(code, body)
    }
}

/// The message for a body that could not be decoded: it holds the reason and
/// the body as it came.
pub open spec fn undecodable_message(reason: Seq<char>, body: Seq<char>) -> Seq<char> {
    "Failed to parse JSON response: "@ + reason + ". Response body: "@ + body
}

/// What the client makes of an answer with a body. `decoded` is what the
/// decoder made of the body: the value, or the reason why there is none.
pub open spec fn response_outcome<T>(
    code: u16,
    body: Seq<char>,
    decoded: Result<T, Seq<char>>,
) -> Result<T, ErrorView> {
    if 200 <= code <= 299 {
        match decoded {
            Ok(value) => Ok(value),
            Err(reason) => Err(ErrorView::Api(code, undecodable_message(reason, body))),
        }
    } else {
        Err(failure_of(code, body))
    }
}

/// What the client makes of the answer to the question whether the API key is
/// valid.
pub open spec fn validation_outcome(code: u16) -> Result<(), ErrorView> {
    if code == 200 {
        Ok(())
    } else if code == 401 {
        Err(ErrorView::InvalidApiKey)
    } else if code == 500 {
        Err(ErrorView::ServerError)
    } else {
        Err(ErrorView::Api(code, "Unexpected status code: "@ + status_line(code)))
    }
}

/// A result with its error as what the error stands for.
pub open spec fn outcome_of<T>(result: Result<T, Error>) -> Result<T, ErrorView> {
    match result {
        Ok(value) => Ok(value),
        Err(e) => Err(e@),
    }
}

/// A decoder's result with its reason as a sequence of characters.
pub open spec fn decoded_of<T>(decoded: Result<T, String>) -> Result<T, Seq<char>> {
    match decoded {
        Ok(value) => Ok(value),
        Err(reason) => Err(reason@),
    }
}

fn concat(head: &str, tail: &str) -> (r: String)
    ensures
        r@ == head@ + tail@,
{
    let mut text = head.to_owned();
    text.append(tail);
    text
}

fn no_query() -> (r: Vec<(&'static str, String)>)
    ensures
        r.deep_view() == Seq::<Pair>::empty(),
{
    let query: Vec<(&'static str, String)> = Vec::new();
    assert(query.deep_view() =~= Seq::<Pair>::empty());
    query
}

impl Client {
    /// A client of the service's own address, without an API key.
    pub fn new() -> (r: Self)
        ensures
            r@ == ClientBuilderView::fresh().built(),
    {
        ClientBuilder::new().build()
    }

    /// A client of the service's own address, with an API key.
    pub fn with_api_key(api_key: String) -> (r: Self)
        ensures
            r@ == ClientBuilderView::fresh().with_api_key(api_key@).built(),
    {
        ClientBuilder::new().api_key(api_key.as_str()).build()
    }

    /// A builder, to make a client with other settings.
    pub fn builder() -> (r: ClientBuilder)
        ensures
            r@ == ClientBuilderView::fresh(),
    {
        ClientBuilder::new()
    }

    /// The address of the service.
    pub fn base_url(&self) -> (r: &str)
        ensures
            r@ == self@.base_url,
    {
        self.base_url.as_str()
    }

    /// The API key, if the client has one.
    pub fn api_key(&self) -> (r: Option<&str>)
        ensures
            r is Some <==> self@.api_key is Some,
            r matches Some(key) ==> Some(key@) == self@.api_key,
    {
        match &self.api_key {
            Some(key) => Some(key.as_str()),
            None => None,
        }
    }

    /// The time after which a request is given up.
    pub fn timeout(&self) -> (r: Duration)
        ensures
            r == self@.timeout,
    {
        self.timeout
    }

    /// The request for a player's profile.
    pub fn profile_request(&self, id: &Id) -> (r: Request)
        ensures
            r@ == self@.profile_request(id@),
    {
        let url = concat(self.base_url.as_str(), "/v3/profile");
        let query = self.build_profile_query_params(id);
        self.request(url, query)
    }

    /// The request for a player's matches.
    pub fn profile_matches_request(&self, id: &Id) -> (r: Request)
        ensures
            r@ == self@.profile_matches_request(id@),
    {
        let url = concat(self.base_url.as_str(), "/v3/profile/matches");
        let query = self.build_profile_query_params(id);
        self.request(url, query)
    }

    /// The request for a match by the service's own identifier of it.
    pub fn match_by_game_id_request(&self, game_id: &str) -> (r: Request)
        ensures
            r@ == self@.match_by_game_id_request(game_id@),
    {
        let mut url = concat(self.base_url.as_str(), "/v2/matches/");
        url.append(game_id);
        assert(url@ == self@.base_url + ("/v2/matches/"@ + game_id@));
        self.request(url, no_query())
    }

    /// The request for a match by its data source and the identifier that the
    /// source gave it.
    pub fn match_by_data_source_request(
        &self,
        data_source: &DataSource,
        data_source_id: &str,
    ) -> (r: Request)
        ensures
            r@ == self@.match_by_data_source_request(data_source@, data_source_id@),
    {
        let mut url = concat(self.base_url.as_str(), "/v2/matches/");
        url.append(data_source.as_str());
        url.append("/");
        url.append(data_source_id);
        assert(url@ == self@.base_url + ("/v2/matches/"@ + data_source@.canonical() + "/"@
            + data_source_id@));
        self.request(url, no_query())
    }

    /// The request that asks whether the API key is valid.
    pub fn validate_api_key_request(&self) -> (r: Request)
        ensures
            r@ == self@.validate_api_key_request(),
    {
        let url = concat(self.base_url.as_str(), "/api-key/validate");
        self.request(url, no_query())
    }

    /// A request to an address of the service, with the key if there is one.
    fn request(&self, url: String, query: Vec<(&'static str, String)>) -> (r: Request)
        ensures
            r@ == (RequestView {
                url: url@,
                query: query.deep_view(),
                headers: auth_headers(self@.api_key),
            }),
    {
        let r = self.add_api_key_header(Request { url, query, headers: Vec::new() });
        assert(r@.headers == auth_headers(self@.api_key));
        r
    }

    /// The query parameter that names a player.
    pub fn build_profile_query_params(&self, id: &Id) -> (r: Vec<(&'static str, String)>)
        ensures
            r.deep_view() == profile_query(id@),
    {
        let mut query: Vec<(&'static str, String)> = Vec::new();
        match id {
            Id::Steam64(id) => {
                query.push(("steam64_id", id.as_ref().to_owned()));
            },
            Id::Leetify(id) => {
                query.push(("id", id.as_ref().to_owned()));
            },
        }
        assert(query.deep_view() =~= profile_query(id@));
        query
    }

    /// Puts the API key among the headers of a request, where the client has
    /// one.
    pub fn add_api_key_header(&self, request: Request) -> (r: Request)
        ensures
            r@.url == request@.url,
            r@.query == request@.query,
            r@.headers == request@.headers + auth_headers(self@.api_key),
    {
        let mut request = request;
        let ghost before = request.headers.deep_view();
        match &self.api_key {
            Some(key) => {
                request.headers.push((API_KEY_HEADER, key.clone()));
                assert(request.headers.deep_view() =~= before + auth_headers(self@.api_key));
            },
            None => {
                assert(request.headers.deep_view() =~= before + auth_headers(self@.api_key));
            },
        }
        request
    }

    /// Makes of an answer with a body what the caller gets: the decoded
    /// value where the status is a success and the body can be decoded, and
    /// else the error. The decoder is asked only where the status is a
    /// success.
    pub fn handle_response<T, F: FnOnce(&String) -> Result<T, String>>(
        &self,
        status: Status,
        body: String,
        decode: F,
    ) -> (r: Result<T, Error>)
        requires
            200 <= status.code() <= 299 ==> decode.requires((&body,)),
        ensures
            !(200 <= status.code() <= 299) ==> outcome_of(r) == Err::<T, ErrorView>(
                failure_of(status.code(), body@),
            ),
            200 <= status.code() <= 299 ==> exists|decoded: Result<T, String>|
                decode.ensures((&body,), decoded) && outcome_of(r) == response_outcome(
                    status.code(),
                    body@,
                    decoded_of(decoded),
                ),
    {
        let code = status.as_u16();
        if !status.is_success() {
            return if code == 401 {
                Err(Error::InvalidApiKey)
            } else if code == 500 {
                Err(Error::ServerError)
            } else {
                Err(Error::Api(code, body))
            };
        }
        let decoded = decode(&body);
        let ghost seen = decoded;
        let r = match decoded {
            Ok(value) => Ok(value),
            Err(reason) => {
                let mut message = concat("Failed to parse JSON response: ", reason.as_str());
                message.append(". Response body: ");
                message.append(body.as_str());
                Err(Error::Api(code, message))
            },
        };
        assert(decode.ensures((&body,), seen) && outcome_of(r) == response_outcome(
            status.code(),
            body@,
            decoded_of(seen),
        ));
        r
    }

    /// Makes of the answer to the question whether the API key is valid what
    /// the caller gets.
    pub fn validate_api_key_response(&self, status: Status) -> (r: Result<(), Error>)
        ensures
            outcome_of(r) == validation_outcome(status.code()),
    {
        let code = status.as_u16();
        if code == 200 {
            Ok(())
        } else if code == 401 {
            Err(Error::InvalidApiKey)
        } else if code == 500 {
            Err(Error::ServerError)
        } else {
            let text = status.to_text();
            Err(Error::Api(code, concat("Unexpected status code: ", text.as_str())))
        }
    }
}

impl Default for Client {
    fn default() -> (r: Self)
        ensures
            r@ == ClientBuilderView::fresh().built(),
    {
        Client::new()
    }
}

/// A client made without an API key sends no header with any request. A
/// client made with one sends the key header, and no other, with every
/// request, the question whether the key is valid among them.
pub proof fn lemma_api_key_header(
    builder: ClientBuilderView,
    key: Seq<char>,
    id: IdView,
    game_id: Seq<char>,
    data_source: DataSourceView,
    data_source_id: Seq<char>,
)
    ensures
        ({
            let client = (ClientBuilderView { api_key: None, ..builder }).built();
            let none = Seq::<Pair>::empty();
            &&& client.profile_request(id).headers == none
            &&& client.profile_matches_request(id).headers == none
            &&& client.match_by_game_id_request(game_id).headers == none
            &&& client.match_by_data_source_request(data_source, data_source_id).headers == none
            &&& client.validate_api_key_request().headers == none
        }),
        ({
            let client = builder.with_api_key(key).built();
            let one = seq![(API_KEY_HEADER@, key)];
            &&& client.profile_request(id).headers == one
            &&& client.profile_matches_request(id).headers == one
            &&& client.match_by_game_id_request(game_id).headers == one
            &&& client.match_by_data_source_request(data_source, data_source_id).headers == one
            &&& client.validate_api_key_request().headers == one
        }),
        ClientBuilderView::fresh().built().api_key is None,
{
}

/// For every answer with a body: status 401 gives `InvalidApiKey` and status
/// 500 gives `ServerError`, whatever the body holds. A status of success
/// whose body cannot be decoded gives `Api` with that status and a message
/// that ends with the body as it came.
pub proof fn lemma_response_outcome<T>(
    code: u16,
    body: Seq<char>,
    decoded: Result<T, Seq<char>>,
    reason: Seq<char>,
)
    ensures
        response_outcome(401, body, decoded) == Err::<T, ErrorView>(ErrorView::InvalidApiKey),
        response_outcome(500, body, decoded) == Err::<T, ErrorView>(ErrorView::ServerError),
        200 <= code <= 299 ==> response_outcome::<T>(code, body, Err(reason)) == Err::<
            T,
            ErrorView,
        >(ErrorView::Api(code, undecodable_message(reason, body))),
        ({
            let message = undecodable_message(reason, body);
            &&& message.len() >= body.len()
            &&& message.subrange(message.len() - body.len(), message.len() as int) == body
        }),
{
    let message = undecodable_message(reason, body);
    assert(message.subrange(message.len() - body.len(), message.len() as int) =~= body);
}

/// A client made by a builder that was told nothing of a timeout gives a
/// request up after 30 seconds, and one made by a builder that was told a
/// timeout gives it up after that time.
pub proof fn lemma_timeout(builder: ClientBuilderView, timeout: Duration)
    ensures
        ClientBuilderView::fresh().built().timeout == duration_of_secs(30),
        (ClientBuilderView { timeout: None, ..builder }).built().timeout == duration_of_secs(30),
        builder.with_timeout(timeout).built().timeout == timeout,
{
}

} // verus!
