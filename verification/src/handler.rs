//! The request pipeline: what to do with a request, and what to answer once
//! the object store has been asked.
//!
//! The pipeline never talks to the store itself. [`handle_request`] says
//! whether a request is refused or which object must be fetched; the caller
//! fetches it and hands the outcome to [`handle_lookup`], which shapes the
//! response.

use crate::config::{Config, ConfigError, ConfigView, EnvVarsView};
use crate::security::{
    is_origin_allowed, origin_allowed, referer_verdict, validate_referer, RefererValidation,
};
use crate::text::list_entries;
use vstd::prelude::*;
use vstd::string::*;

verus! {

/// The method of a request.
#[derive(Debug, Clone, Copy, PartialEq, Eq, Structural)]
pub enum Method {
    Get,
    Head,
    Post,
    Put,
    Patch,
    Delete,
    Options,
    Connect,
    Trace,
    /// Any method not named above.
    Other,
}

/// What the pipeline reads of a request.
#[derive(Debug, Clone, PartialEq, Eq)]
pub struct Request {
    pub method: Method,
    /// The path of the request's URL, as the HTTP layer delivers it.
    pub path: String,
    /// The `Referer` header, if the request has one.
    pub referer: Option<String>,
    /// The `Origin` header, if the request has one.
    pub origin: Option<String>,
}

/// A request as plain text.
pub struct RequestView {
    pub method: Method,
    pub path: Seq<char>,
    pub referer: Option<Seq<char>>,
    pub origin: Option<Seq<char>>,
}

impl View for Request {
    type V = RequestView;

    open spec fn view(&self) -> RequestView {
        RequestView {
            method: self.method,
            path: self.path@,
            referer: self.referer.deep_view(),
            origin: self.origin.deep_view(),
        }
    }
}

/// Why a request is not served.
#[derive(Debug, Clone, Copy, PartialEq, Eq, Structural)]
pub enum Failure {
    /// The method is not `GET`.
    MethodNotAllowed,
    /// There is no referer, and the configuration asks for one.
    MissingReferer,
    /// The referer matches no allowed origin.
    InvalidReferer,
    /// The path names no object, or the store has no such object, or the
    /// object has no body.
    NotFound,
    /// The gateway has no configuration, or the store could not be asked or
    /// read.
    Internal,
}

impl Failure {
    /// The status code of the response.
    pub open spec fn spec_status(self) -> u16 {
        match self {
            Failure::MethodNotAllowed => 405,
            Failure::MissingReferer => 403,
            Failure::InvalidReferer => 403,
            Failure::NotFound => 404,
            Failure::Internal => 500,
        }
    }

    /// The body of the response.
    pub open spec fn spec_message(self) -> Seq<char> {
        match self {
            Failure::MethodNotAllowed => "Method Not Allowed"@,
            Failure::MissingReferer => "Forbidden: Missing Referer"@,
            Failure::InvalidReferer => "Forbidden: Invalid Referer"@,
            Failure::NotFound => "Not Found"@,
            Failure::Internal => "Internal Server Error"@,
        }
    }

    /// The failure that every request meets while there is no configuration.
    /// Whatever is wrong with the settings, a client learns only that the
    /// server failed.
    pub fn unconfigured(error: ConfigError) -> (failure: Failure)
        ensures
            failure == Failure::Internal,
    {
        match error {
            ConfigError::MissingOrigins => Failure::Internal,
            ConfigError::NoOrigins => Failure::Internal,
        }
    }

    /// The status code to answer with: always one that reports an error.
    pub fn status(&self) -> (code: u16)
        ensures
            code == self.spec_status(),
            400 <= code <= 599,
    {
        match self {
            Failure::MethodNotAllowed => 405,
            Failure::MissingReferer => 403,
            Failure::InvalidReferer => 403,
            Failure::NotFound => 404,
            Failure::Internal => 500,
        }
    }

    /// The short, fixed text to answer with. It tells a missing referer from
    /// an invalid one and tells nothing of the store.
    pub fn message(&self) -> (text: &'static str)
        ensures
            text@ == self.spec_message(),
    {
        match self {
            Failure::MethodNotAllowed => "Method Not Allowed",
            Failure::MissingReferer => "Forbidden: Missing Referer",
            Failure::InvalidReferer => "Forbidden: Invalid Referer",
            Failure::NotFound => "Not Found",
            Failure::Internal => "Internal Server Error",
        }
    }
}

/// What to do with a request.
#[derive(Debug, Clone, PartialEq, Eq)]
pub enum Step {
    /// Answer with the failure. The store is not asked.
    Fail(Failure),
    /// Ask the store bound as `binding` for the object `key`.
    Fetch { binding: String, key: String },
}

/// A step as plain text.
pub enum StepView {
    Fail(Failure),
    Fetch { binding: Seq<char>, key: Seq<char> },
}

impl View for Step {
    type V = StepView;

    open spec fn view(&self) -> StepView {
        match self {
            Step::Fail(failure) => StepView::Fail(*failure),
            Step::Fetch { binding, key } => StepView::Fetch { binding: binding@, key: key@ },
        }
    }
}

/// An object as the store holds it. `B` is whatever stands for the object's
/// bytes: the pipeline hands it on and never looks inside.
#[derive(Debug, Clone, PartialEq, Eq)]
pub struct StoredObject<B> {
    /// The object's bytes, if they can be read.
    pub body: Option<B>,
    /// The content type stored with the object.
    pub content_type: Option<String>,
    /// The object's entity tag; empty if it has none.
    pub etag: String,
}

/// A stored object as plain text.
pub struct StoredObjectView<B> {
    pub body: Option<B>,
    pub content_type: Option<Seq<char>>,
    pub etag: Seq<char>,
}

impl<B> View for StoredObject<B> {
    type V = StoredObjectView<B>;

    open spec fn view(&self) -> StoredObjectView<B> {
        StoredObjectView {
            body: self.body,
            content_type: self.content_type.deep_view(),
            etag: self.etag@,
        }
    }
}

/// How asking the store for an object ended.
#[derive(Debug, Clone, PartialEq, Eq)]
pub enum Lookup<B> {
    /// The store could not be asked or read.
    Failed,
    /// The store has no object under the key.
    Absent,
    /// The store has this object.
    Found(StoredObject<B>),
}

/// A lookup as plain text.
pub enum LookupView<B> {
    Failed,
    Absent,
    Found(StoredObjectView<B>),
}

impl<B> View for Lookup<B> {
    type V = LookupView<B>;

    open spec fn view(&self) -> LookupView<B> {
        match self {
            Lookup::Failed => LookupView::Failed,
            Lookup::Absent => LookupView::Absent,
            Lookup::Found(object) => LookupView::Found(object@),
        }
    }
}

/// A response header.
#[derive(Debug, Clone, PartialEq, Eq)]
pub struct Header {
    pub name: String,
    pub value: String,
}

/// A header as plain text.
pub struct HeaderView {
    pub name: Seq<char>,
    pub value: Seq<char>,
}

impl View for Header {
    type V = HeaderView;

    open spec fn view(&self) -> HeaderView {
        HeaderView { name: self.name@, value: self.value@ }
    }
}

impl DeepView for Header {
    type V = HeaderView;

    open spec fn deep_view(&self) -> HeaderView {
        self@
    }
}

/// The response to a request.
#[derive(Debug, Clone, PartialEq, Eq)]
pub enum Reply<B> {
    /// The failure's status, with its message as the body.
    Failure(Failure),
    /// Status 200 with these headers; the body is the object's bytes.
    Object { body: B, headers: Vec<Header> },
}

/// A reply as plain text.
pub enum ReplyView<B> {
    Failure(Failure),
    Object { body: B, headers: Seq<HeaderView> },
}

impl<B> View for Reply<B> {
    type V = ReplyView<B>;

    open spec fn view(&self) -> ReplyView<B> {
        match self {
            Reply::Failure(failure) => ReplyView::Failure(*failure),
            Reply::Object { body, headers } => ReplyView::Object {
                body: *body,
                headers: headers.deep_view(),
            },
        }
    }
}

impl<B> ReplyView<B> {
    /// The status code of the reply.
    pub open spec fn status(self) -> u16 {
        match self {
            ReplyView::Failure(failure) => failure.spec_status(),
            ReplyView::Object { .. } => 200,
        }
    }

    /// The value of the header `name`, if the reply has that header.
    pub open spec fn header(self, name: Seq<char>) -> Option<Seq<char>> {
        match self {
            ReplyView::Failure(_) => None,
            ReplyView::Object { headers, .. } => header_value(headers, name),
        }
    }
}

/// The value of the first header called `name`.
pub open spec fn header_value(headers: Seq<HeaderView>, name: Seq<char>) -> Option<Seq<char>>
    decreases headers.len(),
{
    if headers.len() == 0 {
        None
    } else if headers[0].name == name {
        Some(headers[0].value)
    } else {
        header_value(headers.drop_first(), name)
    }
}

impl<B> Reply<B> {
    /// The status code to answer with.
    pub fn status(&self) -> (code: u16)
        ensures
            code == self@.status(),
    {
        match self {
            Reply::Failure(failure) => failure.status(),
            Reply::Object { .. } => 200,
        }
    }
}

/// The key under which the store holds the object that a path names: the
/// path without its leading slash. Nothing is decoded or normalised.
pub open spec fn object_key(path: Seq<char>) -> Seq<char> {
    if path.len() > 0 && path[0] == '/' {
        path.skip(1)
    } else {
        path
    }
}

/// What is done with a request: the first of these that applies.
///
/// - Any method but `GET` is refused.
/// - An invalid referer is refused; a missing one is refused if the
///   configuration says so.
/// - A path that names no object is not found.
/// - Otherwise the object is fetched.
pub open spec fn first_step(req: RequestView, config: ConfigView) -> StepView {
    let verdict = referer_verdict(req.referer, config.allowed_origins);
    if req.method != Method::Get {
        StepView::Fail(Failure::MethodNotAllowed)
    } else if verdict == RefererValidation::Invalid {
        StepView::Fail(Failure::InvalidReferer)
    } else if verdict == RefererValidation::Missing && config.block_no_referer {
        StepView::Fail(Failure::MissingReferer)
    } else if object_key(req.path).len() == 0 {
        StepView::Fail(Failure::NotFound)
    } else {
        StepView::Fetch { binding: config.r2_binding, key: object_key(req.path) }
    }
}

/// The header that tells the content type of an object, if it has one.
pub open spec fn type_headers(content_type: Option<Seq<char>>) -> Seq<HeaderView> {
    match content_type {
        Some(t) => seq![HeaderView { name: "Content-Type"@, value: t }],
        None => seq![],
    }
}

/// The header that tells how long an object may be cached.
pub open spec fn cache_headers(config: ConfigView) -> Seq<HeaderView> {
    seq![HeaderView { name: "Cache-Control"@, value: config.cache_control }]
}

/// The header that tells the entity tag of an object, unless it is empty.
pub open spec fn tag_headers(etag: Seq<char>) -> Seq<HeaderView> {
    if etag.len() > 0 {
        seq![HeaderView { name: "ETag"@, value: etag }]
    } else {
        seq![]
    }
}

/// The headers that admit the request's origin, if it is allowed: the first
/// repeats the origin itself, the second names the one method.
pub open spec fn cors_headers(origin: Option<Seq<char>>, config: ConfigView) -> Seq<HeaderView> {
    if origin_allowed(origin, config.allowed_origins) {
        seq![
            HeaderView { name: "Access-Control-Allow-Origin"@, value: origin->0 },
            HeaderView { name: "Access-Control-Allow-Methods"@, value: "GET"@ },
        ]
    } else {
        seq![]
    }
}

/// The headers of a served object, in this order: its content type if it
/// has one, the configured cache control, its entity tag if it has one, and
/// for an allowed origin the two headers that admit it.
pub open spec fn object_headers(
    content_type: Option<Seq<char>>,
    etag: Seq<char>,
    origin: Option<Seq<char>>,
    config: ConfigView,
) -> Seq<HeaderView> {
    type_headers(content_type) + cache_headers(config) + tag_headers(etag) + cors_headers(
        origin,
        config,
    )
}

/// The response once the store has been asked.
///
/// A lookup that failed is an internal failure. An object that is absent, or
/// has no body, is not found. Any other object is served: its body as it is,
/// with the headers of [`object_headers`].
pub open spec fn reply_to<B>(
    req: RequestView,
    lookup: LookupView<B>,
    config: ConfigView,
) -> ReplyView<B> {
    match lookup {
        LookupView::Failed => ReplyView::Failure(Failure::Internal),
        LookupView::Absent => ReplyView::Failure(Failure::NotFound),
        LookupView::Found(object) => match object.body {
            None => ReplyView::Failure(Failure::NotFound),
            Some(body) => ReplyView::Object {
                body,
                headers: object_headers(object.content_type, object.etag, req.origin, config),
            },
        },
    }
}

/// The response to a request when the store answers `store(key)` on being
/// asked for `key`.
pub open spec fn served<B>(
    req: RequestView,
    config: ConfigView,
    store: spec_fn(Seq<char>) -> LookupView<B>,
) -> ReplyView<B> {
    match first_step(req, config) {
        StepView::Fail(failure) => ReplyView::Failure(failure),
        StepView::Fetch { key, .. } => reply_to(req, store(key), config),
    }
}

/// The response to a request under the settings of the environment: an
/// internal failure if they give no configuration, else what the
/// configuration says.
pub open spec fn answered<B>(
    env: EnvVarsView,
    req: RequestView,
    store: spec_fn(Seq<char>) -> LookupView<B>,
) -> ReplyView<B> {
    match Config::spec_from_env(env) {
        Err(_) => ReplyView::Failure(Failure::Internal),
        Ok(config) => served(req, config, store),
    }
}

/// Derives the store key from a request path.
pub fn key_of_path(path: &str) -> (key: &str)
    ensures
        key@ == object_key(path@),
{
    let n = path.unicode_len();
    if n > 0 && path.get_char(0) == '/' {
        path.substring_char(1, n)
    } else {
        path
    }
}

/// Decides what to do with a request: refuse it, or fetch an object.
pub fn handle_request(req: &Request, config: &Config) -> (step: Step)
    ensures
        step@ == first_step(req@, config@),
{
    if req.method != Method::Get {
        return Step::Fail(Failure::MethodNotAllowed);
    }
    let referer = match &req.referer {
        Some(r) => Some(r.as_str()),
        None => None,
    };
    match validate_referer(referer, config) {
        RefererValidation::Valid => {},
        RefererValidation::Missing => {
            if config.block_no_referer {
                return Step::Fail(Failure::MissingReferer);
            }
        },
        RefererValidation::Invalid => {
            return Step::Fail(Failure::InvalidReferer);
        },
    }
    let key = key_of_path(req.path.as_str());
    if key.is_empty() {
        return Step::Fail(Failure::NotFound);
    }
    Step::Fetch { binding: config.r2_binding.clone(), key: key.to_owned() }
}

/// Shapes the response once the store has been asked for the object that
/// [`handle_request`] named.
pub fn handle_lookup<B>(req: &Request, lookup: Lookup<B>, config: &Config) -> (reply: Reply<B>)
    ensures
        reply@ == reply_to(req@, lookup@, config@),
{
    let object = match lookup {
        Lookup::Failed => { return Reply::Failure(Failure::Internal); },
        Lookup::Absent => { return Reply::Failure(Failure::NotFound); },
        Lookup::Found(object) => object,
    };
    let StoredObject { body, content_type, etag } = object;
    let body = match body {
        Some(body) => body,
        None => { return Reply::Failure(Failure::NotFound); },
    };
    let mut headers: Vec<Header> = Vec::new();
    if let Some(content_type) = content_type {
        headers.push(Header { name: "Content-Type".to_owned(), value: content_type });
    }
    headers.push(Header { name: "Cache-Control".to_owned(), value: config.cache_control.clone() });
    if !etag.as_str().is_empty() {
        headers.push(Header { name: "ETag".to_owned(), value: etag });
    }
    if let Some(origin) = &req.origin {
        if is_origin_allowed(Some(origin.as_str()), config) {
            headers.push(
                Header { name: "Access-Control-Allow-Origin".to_owned(), value: origin.clone() },
            );
            headers.push(
                Header { name: "Access-Control-Allow-Methods".to_owned(), value: "GET".to_owned() },
            );
        }
    }
    proof {
        assert(headers.deep_view() =~= object_headers(
            lookup@->Found_0.content_type,
            lookup@->Found_0.etag,
            req@.origin,
            config@,
        ));
    }
    Reply::Object { body, headers }
}

/// The two refusals over the referer share a status and differ in their
/// message, so that a reader of the body can tell them apart.
pub proof fn law_refusals_are_told_apart()
    ensures
        Failure::MissingReferer.spec_status() == Failure::InvalidReferer.spec_status(),
        Failure::MissingReferer.spec_message() != Failure::InvalidReferer.spec_message(),
{
    reveal_strlit("Forbidden: Missing Referer");
    reveal_strlit("Forbidden: Invalid Referer");
    assert("Forbidden: Missing Referer"@[11] != "Forbidden: Invalid Referer"@[11]);
}

/// Every response has one of five status codes.
pub proof fn law_status_codes<B>(reply: ReplyView<B>)
    ensures
        reply.status() == 200 || reply.status() == 403 || reply.status() == 404 || reply.status()
            == 405 || reply.status() == 500,
{
}

/// Without a list of allowed origins, or with one that holds no origin,
/// every request is answered with 500; the store is not asked.
pub proof fn law_unconfigured_is_internal<B>(
    env: EnvVarsView,
    req: RequestView,
    store: spec_fn(Seq<char>) -> LookupView<B>,
)
    requires
        env.allowed_origins matches Some(list) ==> list_entries(list, ',').len() == 0,
    ensures
        answered(env, req, store) == ReplyView::<B>::Failure(Failure::Internal),
        answered(env, req, store).status() == 500,
{
}

/// Anything but `GET` is answered with 405, whatever the headers and the
/// store hold; the store is not asked.
pub proof fn law_only_get_is_served<B>(
    req: RequestView,
    config: ConfigView,
    store: spec_fn(Seq<char>) -> LookupView<B>,
)
    requires
        req.method != Method::Get,
    ensures
        first_step(req, config) == StepView::Fail(Failure::MethodNotAllowed),
        served(req, config, store).status() == 405,
{
}

/// Where the configuration asks for a referer, a `GET` without one is
/// answered with 403; the store is not asked.
pub proof fn law_missing_referer_is_refused<B>(
    req: RequestView,
    config: ConfigView,
    store: spec_fn(Seq<char>) -> LookupView<B>,
)
    requires
        req.method == Method::Get,
        req.referer is None,
        config.block_no_referer,
    ensures
        first_step(req, config) == StepView::Fail(Failure::MissingReferer),
        served(req, config, store).status() == 403,
{
}

/// A `GET` with an invalid referer is answered with 403, whatever the
/// configuration says of missing referers; the store is not asked.
pub proof fn law_invalid_referer_is_refused<B>(
    req: RequestView,
    config: ConfigView,
    store: spec_fn(Seq<char>) -> LookupView<B>,
)
    requires
        req.method == Method::Get,
        referer_verdict(req.referer, config.allowed_origins) == RefererValidation::Invalid,
    ensures
        first_step(req, config) == StepView::Fail(Failure::InvalidReferer),
        served(req, config, store).status() == 403,
{
}

/// Where the configuration lets a missing referer through, a `GET` without
/// one for an object that the store does not hold is answered with 404.
pub proof fn law_absent_object_is_not_found<B>(
    req: RequestView,
    config: ConfigView,
    store: spec_fn(Seq<char>) -> LookupView<B>,
)
    requires
        req.method == Method::Get,
        req.referer is None,
        !config.block_no_referer,
        store(object_key(req.path)) is Absent,
    ensures
        served(req, config, store).status() == 404,
{
}

/// A `GET` for the root path is answered with 404 once the referer has
/// passed; the store is not asked.
pub proof fn law_root_path_is_not_found<B>(
    req: RequestView,
    config: ConfigView,
    store: spec_fn(Seq<char>) -> LookupView<B>,
)
    requires
        req.method == Method::Get,
        referer_verdict(req.referer, config.allowed_origins) == RefererValidation::Valid,
        req.path == "/"@,
    ensures
        first_step(req, config) == StepView::Fail(Failure::NotFound),
        served(req, config, store).status() == 404,
{
    reveal_strlit("/");
}

/// A `GET` with a valid referer for an object that the store holds is
/// answered with 200 and the object's body. The store is asked for the path
/// without its leading slash.
pub proof fn law_held_object_is_served<B>(
    req: RequestView,
    config: ConfigView,
    store: spec_fn(Seq<char>) -> LookupView<B>,
    object: StoredObjectView<B>,
)
    requires
        req.method == Method::Get,
        referer_verdict(req.referer, config.allowed_origins) == RefererValidation::Valid,
        object_key(req.path).len() > 0,
        store(object_key(req.path)) == LookupView::Found(object),
        object.body is Some,
    ensures
        first_step(req, config) == (StepView::Fetch {
            binding: config.r2_binding,
            key: object_key(req.path),
        }),
        served(req, config, store) == reply_to(req, LookupView::Found(object), config),
        served(req, config, store).status() == 200,
        served(req, config, store) matches ReplyView::Object { body, .. } && Some(body)
            == object.body,
{
}

/// The headers of a served object, each by its name: the content type is the
/// stored one, the cache control is the configured one, the entity tag is the
/// stored one unless it is empty, and the two headers that admit an origin
/// are there exactly when the request's origin is allowed, the first with
/// that origin as its value.
pub proof fn law_served_headers<B>(
    req: RequestView,
    config: ConfigView,
    object: StoredObjectView<B>,
)
    requires
        object.body is Some,
    ensures
        ({
            let reply = reply_to(req, LookupView::Found(object), config);
            let admitted = origin_allowed(req.origin, config.allowed_origins);
            &&& reply.status() == 200
            &&& reply.header("Content-Type"@) == object.content_type
            &&& reply.header("Cache-Control"@) == Some(config.cache_control)
            &&& reply.header("ETag"@) == (if object.etag.len() > 0 {
                Some(object.etag)
            } else {
                None
            })
            &&& reply.header("Access-Control-Allow-Origin"@) == (if admitted {
                req.origin
            } else {
                None
            })
            &&& reply.header("Access-Control-Allow-Methods"@) == (if admitted {
                Some("GET"@)
            } else {
                None
            })
        }),
{
    lemma_names_differ();
    lemma_object_header(object.content_type, object.etag, req.origin, config, "Content-Type"@);
    lemma_object_header(object.content_type, object.etag, req.origin, config, "Cache-Control"@);
    lemma_object_header(object.content_type, object.etag, req.origin, config, "ETag"@);
    lemma_object_header(
        object.content_type,
        object.etag,
        req.origin,
        config,
        "Access-Control-Allow-Origin"@,
    );
    lemma_object_header(
        object.content_type,
        object.etag,
        req.origin,
        config,
        "Access-Control-Allow-Methods"@,
    );
}

/// A header of a served object is the first with its name among the four
/// groups of headers.
proof fn lemma_object_header(
    content_type: Option<Seq<char>>,
    etag: Seq<char>,
    origin: Option<Seq<char>>,
    config: ConfigView,
    name: Seq<char>,
)
    ensures
        header_value(object_headers(content_type, etag, origin, config), name) == first_of(
            first_of(
                first_of(
                    header_value_short(type_headers(content_type), name),
                    header_value_short(cache_headers(config), name),
                ),
                header_value_short(tag_headers(etag), name),
            ),
            header_value_short(cors_headers(origin, config), name),
        ),
{
    let typed = type_headers(content_type);
    let cached = cache_headers(config);
    let tagged = tag_headers(etag);
    let admitted = cors_headers(origin, config);
    lemma_header_value_concat(typed, cached, name);
    lemma_header_value_concat(typed + cached, tagged, name);
    lemma_header_value_concat(typed + cached + tagged, admitted, name);
    lemma_header_value_short(typed, name);
    lemma_header_value_short(cached, name);
    lemma_header_value_short(tagged, name);
    lemma_header_value_short(admitted, name);
}

/// What is found under `name` among at most two headers.
spec fn header_value_short(headers: Seq<HeaderView>, name: Seq<char>) -> Option<Seq<char>> {
    if headers.len() > 0 && headers[0].name == name {
        Some(headers[0].value)
    } else if headers.len() > 1 && headers[1].name == name {
        Some(headers[1].value)
    } else {
        None
    }
}

/// The first of two values that is present.
pub open spec fn first_of(a: Option<Seq<char>>, b: Option<Seq<char>>) -> Option<Seq<char>> {
    if a is Some {
        a
    } else {
        b
    }
}

/// A header is looked up in a list of headers by looking in its first part,
/// then in the rest.
pub proof fn lemma_header_value_concat(a: Seq<HeaderView>, b: Seq<HeaderView>, name: Seq<char>)
    ensures
        header_value(a + b, name) == first_of(header_value(a, name), header_value(b, name)),
    decreases a.len(),
{
    if a.len() > 0 {
        assert((a + b).drop_first() =~= a.drop_first() + b);
        lemma_header_value_concat(a.drop_first(), b, name);
    }
}

/// Among at most two headers, a header is the first or the second.
proof fn lemma_header_value_short(headers: Seq<HeaderView>, name: Seq<char>)
    requires
        headers.len() <= 2,
    ensures
        header_value(headers, name) == header_value_short(headers, name),
{
    reveal_with_fuel(header_value, 3);
}

/// The five header names are five names.
proof fn lemma_names_differ()
    ensures
        "Content-Type"@.len() == 12,
        "Cache-Control"@.len() == 13,
        "ETag"@.len() == 4,
        "Access-Control-Allow-Origin"@.len() == 27,
        "Access-Control-Allow-Methods"@.len() == 28,
{
    reveal_strlit("Content-Type");
    reveal_strlit("Cache-Control");
    reveal_strlit("ETag");
    reveal_strlit("Access-Control-Allow-Origin");
    reveal_strlit("Access-Control-Allow-Methods");
}

} // verus!
