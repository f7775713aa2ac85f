//! Requests to the service and the handling of their replies.
//!
//! A request is a GET of a URL that the functions here build; the round trip itself
//! is left to a [`Transport`] that the caller supplies, so that the same rules serve a
//! blocking client, a deferred one, or a stub.
use vstd::prelude::*;

use crate::builder::{decimal, push_decimal, render, QueryParam, Search};
use crate::error::{Error, Result};
use crate::json::{parse_json, parsed_json, JsonValue};
use crate::model::{
    anime_list_response, anime_list_response_is, anime_response, anime_response_is,
    manga_list_response, manga_list_response_is, manga_response, manga_response_is,
    user_list_response, user_list_response_is, user_response, user_response_is, Anime, Manga,
    Response, User,
};

verus! {

#[verifier::external_type_specification]
#[verifier::external_body]
pub struct ExUrl(url::Url);

/// The base of every request URL.
pub const API_URL: &'static str = "https://kitsu.io/api/edge";

/// The collection a request is about.
#[derive(Clone, Copy, Debug, PartialEq, Eq, Structural)]
pub enum Endpoint {
    /// `/anime`
    Anime,
    /// `/manga`
    Manga,
    /// `/users`
    Users,
}

impl Endpoint {
    /// The path of the collection.
    pub open spec fn path(self) -> Seq<char> {
        match self {
            Endpoint::Anime => "/anime"@,
            Endpoint::Manga => "/manga"@,
            Endpoint::Users => "/users"@,
        }
    }

    fn path_str(self) -> (r: &'static str)
        ensures
            r@ == self.path(),
    {
        match self {
            Endpoint::Anime => "/anime",
            Endpoint::Manga => "/manga",
            Endpoint::Users => "/users",
        }
    }
}

/// The URL of the item `id` of the collection `e`.
pub open spec fn item_url(e: Endpoint, id: u64) -> Seq<char> {
    API_URL@ + e.path() + "/"@ + decimal(id as nat)
}

/// The URL of a search of the collection `e` with the parameters `ps`.
pub open spec fn search_url(e: Endpoint, ps: Seq<QueryParam>) -> Seq<char> {
    API_URL@ + e.path() + "?"@ + render(ps)
}

/// Builds the URL of the item `id` of the collection `e`.
pub fn item_link(e: Endpoint, id: u64) -> (r: String)
    ensures
        r@ == item_url(e, id),
{
    let mut u = String::from_str(API_URL);
    u.append(e.path_str());
    u.append("/");
    push_decimal(&mut u, id);
    u
}

/// Builds the URL of a search of the collection `e` with the query `q`.
pub fn search_link(e: Endpoint, q: &Search) -> (r: String)
    ensures
        r@ == search_url(e, q@),
{
    let mut u = String::from_str(API_URL);
    u.append(e.path_str());
    u.append("?");
    u.append(q.as_str());
    u
}

/// Whether the url crate accepts `s` as an absolute URL.
pub uninterp spec fn url_accepts(s: Seq<char>) -> bool;

/// Relies on url::Url::parse: it parses `s` as an absolute URL or fails with the url
/// crate's error, and which of the two happens depends on the text alone.
#[verifier::external_body]
fn parse_url(s: &str) -> (r: core::result::Result<url::Url, url::ParseError>)
    ensures
        r is Ok <==> url_accepts(s@),
{
    url::Url::parse(s)
}

/// Parses a request URL, mapping the url crate's error into the library's.
pub fn request_url(s: &str) -> (r: Result<url::Url>)
    ensures
        r is Ok <==> url_accepts(s@),
        r matches Err(e) ==> e is Url,
{
    match parse_url(s) {
        Ok(u) => Ok(u),
        Err(e) => Err(Error::Url(e)),
    }
}

/// A reply to a GET: its HTTP status and its body.
#[derive(Clone, Debug)]
pub struct Reply {
    /// The HTTP status code.
    pub status: u16,
    /// The body, as received.
    pub body: Vec<u8>,
}

/// `e` is the error for a reply with the status `status`, other than 200, and the body
/// `body`: 400 is a bad request that carries the body, 401 is unauthorized, and any
/// other status is an invalid response that carries it.
pub open spec fn status_error(status: u16, body: Seq<u8>, e: Error) -> bool {
    if status == 400 {
        e matches Error::BadRequest(b) && b@ == body
    } else if status == 401 {
        e is Unauthorized
    } else {
        e matches Error::InvalidResponse(s) && s == status
    }
}

/// Maps a reply's status to an outcome: on 200 its body, else the matching error.
pub fn check_status(reply: Reply) -> (r: Result<Vec<u8>>)
    ensures
        reply.status == 200 ==> (r matches Ok(b) && b@ == reply.body@),
        reply.status != 200 ==> (r matches Err(e) && status_error(reply.status, reply.body@, e)),
{
    if reply.status == 200 {
        Ok(reply.body)
    } else if reply.status == 400 {
        Err(Error::BadRequest(reply.body))
    } else if reply.status == 401 {
        Err(Error::Unauthorized)
    } else {
        Err(Error::InvalidResponse(reply.status))
    }
}

/// Reads the JSON document in a body.
pub fn body_json(body: &[u8]) -> (r: Result<JsonValue>)
    ensures
        match parsed_json(body@) {
            Some(j) => r == Ok::<JsonValue, Error>(j),
            None => r matches Err(e) && e is Json,
        },
{
    match parse_json(body) {
        Ok(j) => Ok(j),
        Err(m) => Err(Error::Json(m)),
    }
}

/// Reads the JSON document of a reply: the status is checked first, then the body
/// parsed.
pub fn reply_json(reply: Reply) -> (r: Result<JsonValue>)
    ensures
        reply.status != 200 ==> (r matches Err(e) && status_error(reply.status, reply.body@, e)),
        reply.status == 200 ==> match parsed_json(reply.body@) {
            Some(j) => r == Ok::<JsonValue, Error>(j),
            None => r matches Err(e) && e is Json,
        },
{
    let body = check_status(reply)?;
    body_json(body.as_slice())
}

/// What a transport answers: a reply, or the message of its failure.
pub type Answer = core::result::Result<Reply, String>;

/// The means of performing a GET, supplied by the caller: a blocking HTTP client, a
/// deferred one driven to completion, or a stub.
pub trait Transport {
    /// Performs a GET of `url`; an error carries the transport's message.
    fn get(&self, url: &url::Url) -> Answer;
}

/// A client of the service over a caller-supplied transport.
pub struct KitsuRequester<T: Transport> {
    /// The transport that performs the requests.
    pub transport: T,
}

/// `r` is the outcome for the reply `reply` to a request for one anime: a status other than
/// 200 gives its error, a body that is not JSON gives [`Error::Json`], JSON of another
/// shape gives [`Error::Decode`], and otherwise the value is what the JSON decodes to.
pub open spec fn anime_reply_is(reply: Reply, r: Result<Response<Anime>>) -> bool {
    &&& reply.status != 200 ==> (r matches Err(e) && status_error(reply.status, reply.body@, e))
    &&& reply.status == 200 ==> match parsed_json(reply.body@) {
        Some(j) => match r {
            Ok(x) => anime_response_is(j, x),
            Err(e) => e is Decode && forall|x: Response<Anime>| !anime_response_is(j, x),
        },
        None => r matches Err(e) && e is Json,
    }
}

/// `r` is the outcome when the transport answered a request for one anime with `answer`:
/// its failure passes through as [`Error::Transport`] with its message, and its reply is
/// decoded.
pub open spec fn anime_answer_is(answer: Answer, r: Result<Response<Anime>>) -> bool {
    match answer {
        Ok(reply) => anime_reply_is(reply, r),
        Err(m) => r matches Err(Error::Transport(t)) && t == m,
    }
}

/// Decodes the reply to a request for one anime.
pub fn anime_from_reply(reply: Reply) -> (r: Result<Response<Anime>>)
    ensures
        anime_reply_is(reply, r),
{
    let j = reply_json(reply)?;
    match anime_response(&j) {
        Ok(x) => Ok(x),
        Err(p) => Err(Error::Decode(p)),
    }
}

/// The outcome of a request for one anime from what the transport answered.
pub fn anime_from_answer(answer: Answer) -> (r: Result<Response<Anime>>)
    ensures
        anime_answer_is(answer, r),
{
    match answer {
        Ok(reply) => anime_from_reply(reply),
        Err(m) => Err(Error::Transport(m)),
    }
}

/// `r` is the outcome for the reply `reply` to a search for anime: a status other than
/// 200 gives its error, a body that is not JSON gives [`Error::Json`], JSON of another
/// shape gives [`Error::Decode`], and otherwise the value is what the JSON decodes to.
pub open spec fn anime_list_reply_is(reply: Reply, r: Result<Response<Vec<Anime>>>) -> bool {
    &&& reply.status != 200 ==> (r matches Err(e) && status_error(reply.status, reply.body@, e))
    &&& reply.status == 200 ==> match parsed_json(reply.body@) {
        Some(j) => match r {
            Ok(x) => anime_list_response_is(j, x),
            Err(e) => e is Decode && forall|x: Response<Vec<Anime>>|
                !anime_list_response_is(j, x),
        },
        None => r matches Err(e) && e is Json,
    }
}

/// `r` is the outcome when the transport answered a search for anime with `answer`: its failure
/// passes through as [`Error::Transport`] with its message, and its reply is decoded.
pub open spec fn anime_list_answer_is(answer: Answer, r: Result<Response<Vec<Anime>>>) -> bool {
    match answer {
        Ok(reply) => anime_list_reply_is(reply, r),
        Err(m) => r matches Err(Error::Transport(t)) && t == m,
    }
}

/// Decodes the reply to a search for anime.
pub fn anime_list_from_reply(reply: Reply) -> (r: Result<Response<Vec<Anime>>>)
    ensures
        anime_list_reply_is(reply, r),
{
    let j = reply_json(reply)?;
    match anime_list_response(&j) {
        Ok(x) => Ok(x),
        Err(p) => Err(Error::Decode(p)),
    }
}

/// The outcome of a search for anime from what the transport answered.
pub fn anime_list_from_answer(answer: Answer) -> (r: Result<Response<Vec<Anime>>>)
    ensures
        anime_list_answer_is(answer, r),
{
    match answer {
        Ok(reply) => anime_list_from_reply(reply),
        Err(m) => Err(Error::Transport(m)),
    }
}

/// `r` is the outcome for the reply `reply` to a request for one manga: a status other than
/// 200 gives its error, a body that is not JSON gives [`Error::Json`], JSON of another
/// shape gives [`Error::Decode`], and otherwise the value is what the JSON decodes to.
pub open spec fn manga_reply_is(reply: Reply, r: Result<Response<Manga>>) -> bool {
    &&& reply.status != 200 ==> (r matches Err(e) && status_error(reply.status, reply.body@, e))
    &&& reply.status == 200 ==> match parsed_json(reply.body@) {
        Some(j) => match r {
            Ok(x) => manga_response_is(j, x),
            Err(e) => e is Decode && forall|x: Response<Manga>| !manga_response_is(j, x),
        },
        None => r matches Err(e) && e is Json,
    }
}

/// `r` is the outcome when the transport answered a request for one manga with `answer`:
/// its failure passes through as [`Error::Transport`] with its message, and its reply is
/// decoded.
pub open spec fn manga_answer_is(answer: Answer, r: Result<Response<Manga>>) -> bool {
    match answer {
        Ok(reply) => manga_reply_is(reply, r),
        Err(m) => r matches Err(Error::Transport(t)) && t == m,
    }
}

/// Decodes the reply to a request for one manga.
pub fn manga_from_reply(reply: Reply) -> (r: Result<Response<Manga>>)
    ensures
        manga_reply_is(reply, r),
{
    let j = reply_json(reply)?;
    match manga_response(&j) {
        Ok(x) => Ok(x),
        Err(p) => Err(Error::Decode(p)),
    }
}

/// The outcome of a request for one manga from what the transport answered.
pub fn manga_from_answer(answer: Answer) -> (r: Result<Response<Manga>>)
    ensures
        manga_answer_is(answer, r),
{
    match answer {
        Ok(reply) => manga_from_reply(reply),
        Err(m) => Err(Error::Transport(m)),
    }
}

/// `r` is the outcome for the reply `reply` to a search for manga: a status other than
/// 200 gives its error, a body that is not JSON gives [`Error::Json`], JSON of another
/// shape gives [`Error::Decode`], and otherwise the value is what the JSON decodes to.
pub open spec fn manga_list_reply_is(reply: Reply, r: Result<Response<Vec<Manga>>>) -> bool {
    &&& reply.status != 200 ==> (r matches Err(e) && status_error(reply.status, reply.body@, e))
    &&& reply.status == 200 ==> match parsed_json(reply.body@) {
        Some(j) => match r {
            Ok(x) => manga_list_response_is(j, x),
            Err(e) => e is Decode && forall|x: Response<Vec<Manga>>|
                !manga_list_response_is(j, x),
        },
        None => r matches Err(e) && e is Json,
    }
}

/// `r` is the outcome when the transport answered a search for manga with `answer`: its failure
/// passes through as [`Error::Transport`] with its message, and its reply is decoded.
pub open spec fn manga_list_answer_is(answer: Answer, r: Result<Response<Vec<Manga>>>) -> bool {
    match answer {
        Ok(reply) => manga_list_reply_is(reply, r),
        Err(m) => r matches Err(Error::Transport(t)) && t == m,
    }
}

/// Decodes the reply to a search for manga.
pub fn manga_list_from_reply(reply: Reply) -> (r: Result<Response<Vec<Manga>>>)
    ensures
        manga_list_reply_is(reply, r),
{
    let j = reply_json(reply)?;
    match manga_list_response(&j) {
        Ok(x) => Ok(x),
        Err(p) => Err(Error::Decode(p)),
    }
}

/// The outcome of a search for manga from what the transport answered.
pub fn manga_list_from_answer(answer: Answer) -> (r: Result<Response<Vec<Manga>>>)
    ensures
        manga_list_answer_is(answer, r),
{
    match answer {
        Ok(reply) => manga_list_from_reply(reply),
        Err(m) => Err(Error::Transport(m)),
    }
}

/// `r` is the outcome for the reply `reply` to a request for one user: a status other than
/// 200 gives its error, a body that is not JSON gives [`Error::Json`], JSON of another
/// shape gives [`Error::Decode`], and otherwise the value is what the JSON decodes to.
pub open spec fn user_reply_is(reply: Reply, r: Result<Response<User>>) -> bool {
    &&& reply.status != 200 ==> (r matches Err(e) && status_error(reply.status, reply.body@, e))
    &&& reply.status == 200 ==> match parsed_json(reply.body@) {
        Some(j) => match r {
            Ok(x) => user_response_is(j, x),
            Err(e) => e is Decode && forall|x: Response<User>| !user_response_is(j, x),
        },
        None => r matches Err(e) && e is Json,
    }
}

/// `r` is the outcome when the transport answered a request for one user with `answer`: its failure
/// passes through as [`Error::Transport`] with its message, and its reply is decoded.
pub open spec fn user_answer_is(answer: Answer, r: Result<Response<User>>) -> bool {
    match answer {
        Ok(reply) => user_reply_is(reply, r),
        Err(m) => r matches Err(Error::Transport(t)) && t == m,
    }
}

/// Decodes the reply to a request for one user.
pub fn user_from_reply(reply: Reply) -> (r: Result<Response<User>>)
    ensures
        user_reply_is(reply, r),
{
    let j = reply_json(reply)?;
    match user_response(&j) {
        Ok(x) => Ok(x),
        Err(p) => Err(Error::Decode(p)),
    }
}

/// The outcome of a request for one user from what the transport answered.
pub fn user_from_answer(answer: Answer) -> (r: Result<Response<User>>)
    ensures
        user_answer_is(answer, r),
{
    match answer {
        Ok(reply) => user_from_reply(reply),
        Err(m) => Err(Error::Transport(m)),
    }
}

/// `r` is the outcome for the reply `reply` to a search for users: a status other than
/// 200 gives its error, a body that is not JSON gives [`Error::Json`], JSON of another
/// shape gives [`Error::Decode`], and otherwise the value is what the JSON decodes to.
pub open spec fn user_list_reply_is(reply: Reply, r: Result<Response<Vec<User>>>) -> bool {
    &&& reply.status != 200 ==> (r matches Err(e) && status_error(reply.status, reply.body@, e))
    &&& reply.status == 200 ==> match parsed_json(reply.body@) {
        Some(j) => match r {
            Ok(x) => user_list_response_is(j, x),
            Err(e) => e is Decode && forall|x: Response<Vec<User>>|
                !user_list_response_is(j, x),
        },
        None => r matches Err(e) && e is Json,
    }
}

/// `r` is the outcome when the transport answered a search for users with `answer`: its failure
/// passes through as [`Error::Transport`] with its message, and its reply is decoded.
pub open spec fn user_list_answer_is(answer: Answer, r: Result<Response<Vec<User>>>) -> bool {
    match answer {
        Ok(reply) => user_list_reply_is(reply, r),
        Err(m) => r matches Err(Error::Transport(t)) && t == m,
    }
}

/// Decodes the reply to a search for users.
pub fn user_list_from_reply(reply: Reply) -> (r: Result<Response<Vec<User>>>)
    ensures
        user_list_reply_is(reply, r),
{
    let j = reply_json(reply)?;
    match user_list_response(&j) {
        Ok(x) => Ok(x),
        Err(p) => Err(Error::Decode(p)),
    }
}

/// The outcome of a search for users from what the transport answered.
pub fn user_list_from_answer(answer: Answer) -> (r: Result<Response<Vec<User>>>)
    ensures
        user_list_answer_is(answer, r),
{
    match answer {
        Ok(reply) => user_list_from_reply(reply),
        Err(m) => Err(Error::Transport(m)),
    }
}

impl<T: Transport> KitsuRequester<T> {
    /// A client over `transport`.
    pub fn new(transport: T) -> (r: KitsuRequester<T>)
        ensures
            r.transport == transport,
    {
        KitsuRequester { transport }
    }

    /// Gets the anime with the id `id`, from `anime/<id>`.
    ///
    /// The URL must parse, else the result is [`Error::Url`] and nothing is sent;
    /// otherwise the result is what the transport's answer gives, whatever it was.
    pub fn get_anime(&self, id: u64) -> (r: Result<Response<Anime>>)
        ensures
            (r matches Err(e) && e is Url) <==> !url_accepts(item_url(Endpoint::Anime, id)),
            url_accepts(item_url(Endpoint::Anime, id)) ==> exists|answer: Answer|
                anime_answer_is(answer, r),
    {
        let link = item_link(Endpoint::Anime, id);
        let url = request_url(link.as_str())?;
        let answer = self.transport.get(&url);
        let ghost sent = answer;
        let r = anime_from_answer(answer);
        assert(anime_answer_is(sent, r));
        r
    }

    /// Searches the anime with the query `q`, from `anime?<query>`.
    ///
    /// The URL must parse, else the result is [`Error::Url`] and nothing is sent;
    /// otherwise the result is what the transport's answer gives, whatever it was.
    pub fn search_anime(&self, q: &Search) -> (r: Result<Response<Vec<Anime>>>)
        ensures
            (r matches Err(e) && e is Url) <==> !url_accepts(search_url(Endpoint::Anime, q@)),
            url_accepts(search_url(Endpoint::Anime, q@)) ==> exists|answer: Answer|
                anime_list_answer_is(answer, r),
    {
        let link = search_link(Endpoint::Anime, q);
        let url = request_url(link.as_str())?;
        let answer = self.transport.get(&url);
        let ghost sent = answer;
        let r = anime_list_from_answer(answer);
        assert(anime_list_answer_is(sent, r));
        r
    }

    /// Gets the manga with the id `id`, from `manga/<id>`.
    ///
    /// The URL must parse, else the result is [`Error::Url`] and nothing is sent;
    /// otherwise the result is what the transport's answer gives, whatever it was.
    pub fn get_manga(&self, id: u64) -> (r: Result<Response<Manga>>)
        ensures
            (r matches Err(e) && e is Url) <==> !url_accepts(item_url(Endpoint::Manga, id)),
            url_accepts(item_url(Endpoint::Manga, id)) ==> exists|answer: Answer|
                manga_answer_is(answer, r),
    {
        let link = item_link(Endpoint::Manga, id);
        let url = request_url(link.as_str())?;
        let answer = self.transport.get(&url);
        let ghost sent = answer;
        let r = manga_from_answer(answer);
        assert(manga_answer_is(sent, r));
        r
    }

    /// Searches the manga with the query `q`, from `manga?<query>`.
    ///
    /// The URL must parse, else the result is [`Error::Url`] and nothing is sent;
    /// otherwise the result is what the transport's answer gives, whatever it was.
    pub fn search_manga(&self, q: &Search) -> (r: Result<Response<Vec<Manga>>>)
        ensures
            (r matches Err(e) && e is Url) <==> !url_accepts(search_url(Endpoint::Manga, q@)),
            url_accepts(search_url(Endpoint::Manga, q@)) ==> exists|answer: Answer|
                manga_list_answer_is(answer, r),
    {
        let link = search_link(Endpoint::Manga, q);
        let url = request_url(link.as_str())?;
        let answer = self.transport.get(&url);
        let ghost sent = answer;
        let r = manga_list_from_answer(answer);
        assert(manga_list_answer_is(sent, r));
        r
    }

    /// Gets the user with the id `id`, from `users/<id>`.
    ///
    /// The URL must parse, else the result is [`Error::Url`] and nothing is sent;
    /// otherwise the result is what the transport's answer gives, whatever it was.
    pub fn get_user(&self, id: u64) -> (r: Result<Response<User>>)
        ensures
            (r matches Err(e) && e is Url) <==> !url_accepts(item_url(Endpoint::Users, id)),
            url_accepts(item_url(Endpoint::Users, id)) ==> exists|answer: Answer|
                user_answer_is(answer, r),
    {
        let link = item_link(Endpoint::Users, id);
        let url = request_url(link.as_str())?;
        let answer = self.transport.get(&url);
        let ghost sent = answer;
        let r = user_from_answer(answer);
        assert(user_answer_is(sent, r));
        r
    }

    /// Searches the users with the query `q`, from `users?<query>`.
    ///
    /// The URL must parse, else the result is [`Error::Url`] and nothing is sent;
    /// otherwise the result is what the transport's answer gives, whatever it was.
    pub fn search_users(&self, q: &Search) -> (r: Result<Response<Vec<User>>>)
        ensures
            (r matches Err(e) && e is Url) <==> !url_accepts(search_url(Endpoint::Users, q@)),
            url_accepts(search_url(Endpoint::Users, q@)) ==> exists|answer: Answer|
                user_list_answer_is(answer, r),
    {
        let link = search_link(Endpoint::Users, q);
        let url = request_url(link.as_str())?;
        let answer = self.transport.get(&url);
        let ghost sent = answer;
        let r = user_list_from_answer(answer);
        assert(user_list_answer_is(sent, r));
        r
    }
}

} // verus!
