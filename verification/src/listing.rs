//! The listing service: a prefix is listed as a folder, with a cache in front
//! of the store.
//!
//! The service is a state machine. `list_s3` starts it for one request, and
//! `ListingState::step` takes it on with each answer of the cache or of the
//! store. Each of the two says what the caller is to do next.

use crate::error::{is_success, succeeded, GatewayError};
use crate::page::{
    build_view, lemma_nothing_under_prefix_is_not_found, page_view, ListingPage, PageModel,
    DELIMITER,
};
use crate::response::{ViewModel, ViewResponse};
use crate::text::{
    decimal, decimal_text, decimal_usize, ends_with, lemma_decimal_reads_back, parse_decimal,
};
use vstd::prelude::*;
use vstd::string::*;

verus! {

/// How long a cached listing stays valid, in seconds.
pub const LISTING_TTL_SECONDS: u64 = 3600;

/// What the gateway is set up with, once, at startup.
#[derive(Clone, Debug, PartialEq, Eq)]
pub struct GatewayConfig {
    /// The name of the bucket behind the gateway.
    pub bucket: String,
    /// The public address of the gateway, below which downloads are served.
    pub api_url: String,
    /// The page size that the gateway imposes on every listing, if any.
    pub max_limit: Option<usize>,
}

/// What a `GatewayConfig` holds.
pub struct ConfigModel {
    pub bucket: Seq<char>,
    pub api_url: Seq<char>,
    pub max_limit: Option<usize>,
}

impl View for GatewayConfig {
    type V = ConfigModel;

    open spec fn view(&self) -> ConfigModel {
        ConfigModel { bucket: self.bucket@, api_url: self.api_url@, max_limit: self.max_limit }
    }
}

/// The store's answer to a listing call.
#[derive(Clone, Debug, PartialEq, Eq)]
pub struct StoreListing {
    /// The HTTP status of the answer.
    pub status: u16,
    pub page: ListingPage,
}

/// What a `StoreListing` holds.
pub struct StoreListingModel {
    pub status: u16,
    pub page: PageModel,
}

impl View for StoreListing {
    type V = StoreListingModel;

    open spec fn view(&self) -> StoreListingModel {
        StoreListingModel { status: self.status, page: self.page@ }
    }
}

impl DeepView for StoreListing {
    type V = StoreListingModel;

    open spec fn deep_view(&self) -> StoreListingModel {
        self@
    }
}

/// A prefix is empty or ends with the delimiter: `path` is made to.
pub open spec fn normalized(path: Seq<char>) -> Seq<char> {
    if path.len() > 0 && path.last() != DELIMITER {
        path.push(DELIMITER)
    } else {
        path
    }
}

/// The page size of a listing. The gateway's own page size, where it has
/// one, overrides what the caller asks for.
pub open spec fn effective_limit(cap: Option<usize>, requested: Option<usize>) -> Option<usize> {
    if cap is Some {
        cap
    } else {
        requested
    }
}

/// The page size that a gateway is set up with by `text`: a number greater
/// than 0, written in decimal. Any other text is a misconfiguration.
pub open spec fn page_size_cap_of(text: Seq<char>) -> Result<usize, GatewayError> {
    match decimal_usize(text) {
        Some(n) => if n > 0 {
            Ok(n)
        } else {
            Err(GatewayError::ConfigurationError)
        },
        None => Err(GatewayError::ConfigurationError),
    }
}

/// The key under which the listing of `prefix` from `cursor` on, with page
/// size `limit`, is cached. An absent cursor is written as nothing, an
/// absent page size as 0: equal requests have equal keys, and so have a
/// request without a cursor and one with the empty cursor, and a request
/// without a page size and one with the page size 0.
pub open spec fn cache_key_of(
    bucket: Seq<char>,
    prefix: Seq<char>,
    cursor: Option<Seq<char>>,
    limit: Option<usize>,
) -> Seq<char> {
    "s3://"@ + bucket + "/"@ + prefix + "@"@ + match cursor {
        Some(c) => c,
        None => Seq::empty(),
    } + "+"@ + decimal(
        match limit {
            Some(n) => n as nat,
            None => 0,
        },
    )
}


/// What one listing request comes to, once the path is normalized and the
/// page size settled.
#[derive(Clone, Debug, PartialEq, Eq)]
pub struct ListingPlan {
    /// The prefix to list.
    pub prefix: String,
    /// Where the page starts, as the caller gave it.
    pub cursor: Option<String>,
    /// The page size to ask the store for.
    pub limit: Option<usize>,
    /// The key under which the answer is cached.
    pub cache_key: String,
}

/// What a `ListingPlan` holds.
pub struct PlanModel {
    pub prefix: Seq<char>,
    pub cursor: Option<Seq<char>>,
    pub limit: Option<usize>,
    pub cache_key: Seq<char>,
}

impl View for ListingPlan {
    type V = PlanModel;

    open spec fn view(&self) -> PlanModel {
        PlanModel {
            prefix: self.prefix@,
            cursor: self.cursor.deep_view(),
            limit: self.limit,
            cache_key: self.cache_key@,
        }
    }
}

/// Where a listing request stands.
#[derive(Clone, Debug, PartialEq, Eq)]
pub enum ListingState {
    /// The cache was asked for the answer.
    AwaitingCache(ListingPlan),
    /// The cache had nothing; the store was asked for a page.
    AwaitingStore(ListingPlan),
    /// The request was answered.
    Finished,
}

/// What a `ListingState` holds.
pub enum ListingStateModel {
    AwaitingCache(PlanModel),
    AwaitingStore(PlanModel),
    Finished,
}

impl View for ListingState {
    type V = ListingStateModel;

    open spec fn view(&self) -> ListingStateModel {
        match self {
            ListingState::AwaitingCache(plan) => ListingStateModel::AwaitingCache(plan@),
            ListingState::AwaitingStore(plan) => ListingStateModel::AwaitingStore(plan@),
            ListingState::Finished => ListingStateModel::Finished,
        }
    }
}

/// What came back from the call that the service asked for.
#[derive(Clone, Debug, PartialEq, Eq)]
pub enum ListingEvent {
    /// The cache's answer: the view it holds under the key, or nothing. A
    /// gateway without a cache has nothing under any key.
    CacheReply(Option<ViewResponse>),
    /// The cache could not be asked.
    CacheFailed,
    /// The store's answer to the listing call, or nothing where the call
    /// failed.
    StoreReply(Option<StoreListing>),
}

/// What a `ListingEvent` holds.
pub enum ListingEventModel {
    CacheReply(Option<ViewModel>),
    CacheFailed,
    StoreReply(Option<StoreListingModel>),
}

impl View for ListingEvent {
    type V = ListingEventModel;

    open spec fn view(&self) -> ListingEventModel {
        match self {
            ListingEvent::CacheReply(cached) => ListingEventModel::CacheReply(cached.deep_view()),
            ListingEvent::CacheFailed => ListingEventModel::CacheFailed,
            ListingEvent::StoreReply(reply) => ListingEventModel::StoreReply(reply.deep_view()),
        }
    }
}

/// What the caller is to do next.
#[derive(Clone, Debug, PartialEq, Eq)]
pub enum ListingAction {
    /// Ask the cache for the view under `cache_key`.
    LookUp { cache_key: String },
    /// Ask the store for one page of the keys under `prefix`.
    ListPage { prefix: String, delimiter: char, cursor: Option<String>, limit: Option<usize> },
    /// Answer with the view, as the cache gave it.
    Serve(ViewResponse),
    /// Write the view to the cache under `cache_key`, to stay there for
    /// `ttl_seconds`, and answer with it. A failure of the cache is not a
    /// failure of the request.
    ServeAndCache { response: ViewResponse, cache_key: String, ttl_seconds: u64 },
    /// Answer with the failure.
    Fail(GatewayError),
}

/// What a `ListingAction` holds.
pub enum ListingActionModel {
    LookUp { cache_key: Seq<char> },
    ListPage { prefix: Seq<char>, delimiter: char, cursor: Option<Seq<char>>, limit: Option<usize> },
    Serve(ViewModel),
    ServeAndCache { response: ViewModel, cache_key: Seq<char>, ttl_seconds: u64 },
    Fail(GatewayError),
}

impl View for ListingAction {
    type V = ListingActionModel;

    open spec fn view(&self) -> ListingActionModel {
        match self {
            ListingAction::LookUp { cache_key } => ListingActionModel::LookUp {
                cache_key: cache_key@,
            },
            ListingAction::ListPage { prefix, delimiter, cursor, limit } => {
                ListingActionModel::ListPage {
                    prefix: prefix@,
                    delimiter: *delimiter,
                    cursor: cursor.deep_view(),
                    limit: *limit,
                }
            },
            ListingAction::Serve(response) => ListingActionModel::Serve(response@),
            ListingAction::ServeAndCache { response, cache_key, ttl_seconds } => {
                ListingActionModel::ServeAndCache {
                    response: response@,
                    cache_key: cache_key@,
                    ttl_seconds: *ttl_seconds,
                }
            },
            ListingAction::Fail(e) => ListingActionModel::Fail(*e),
        }
    }
}

/// The plan of the request for `path`, from `cursor` on, with page size
/// `limit`.
pub open spec fn plan_of(
    config: ConfigModel,
    path: Seq<char>,
    cursor: Option<Seq<char>>,
    limit: Option<usize>,
) -> PlanModel {
    let prefix = normalized(path);
    let limit = effective_limit(config.max_limit, limit);
    PlanModel { prefix, cursor, limit, cache_key: cache_key_of(config.bucket, prefix, cursor, limit) }
}

/// How a request starts: with a look into the cache.
pub open spec fn listing_begin(
    config: ConfigModel,
    path: Seq<char>,
    cursor: Option<Seq<char>>,
    limit: Option<usize>,
) -> (ListingStateModel, ListingActionModel) {
    let plan = plan_of(config, path, cursor, limit);
    (ListingStateModel::AwaitingCache(plan), ListingActionModel::LookUp { cache_key: plan.cache_key })
}

/// The call that fetches the page of `plan` from the store.
pub open spec fn store_query(plan: PlanModel) -> ListingActionModel {
    ListingActionModel::ListPage {
        prefix: plan.prefix,
        delimiter: DELIMITER,
        cursor: plan.cursor,
        limit: plan.limit,
    }
}

/// What the store's answer comes to. A call that failed and an answer with
/// a status outside 200..=299 are failures of the store. A page in good
/// order is made into a view, and that can fail in three ways: an object
/// under the prefix gets no download link, and the gateway is misconfigured
/// (`ConfigurationError`); such an object has a date that cannot be read,
/// and the store has failed (`UpstreamError`); nothing lies under the
/// prefix, and the prefix does not exist (`NotFound`). Any other page is
/// served and cached.
pub open spec fn store_outcome(
    config: ConfigModel,
    plan: PlanModel,
    reply: Option<StoreListingModel>,
) -> ListingActionModel {
    match reply {
        None => ListingActionModel::Fail(GatewayError::UpstreamError),
        Some(listing) => if !is_success(listing.status) {
            ListingActionModel::Fail(GatewayError::UpstreamError)
        } else {
            match page_view(config.api_url, plan.prefix, listing.page) {
                Err(e) => ListingActionModel::Fail(e),
                Ok(response) => ListingActionModel::ServeAndCache {
                    response,
                    cache_key: plan.cache_key,
                    ttl_seconds: LISTING_TTL_SECONDS,
                },
            }
        },
    }
}

/// How a request goes on. What the cache holds is served as it is, and the
/// store is not asked. A cache that fails is a cache that holds nothing:
/// the store is asked. An answer that was not asked for ends the request as
/// a failure.
pub open spec fn listing_next(
    config: ConfigModel,
    state: ListingStateModel,
    event: ListingEventModel,
) -> (ListingStateModel, ListingActionModel) {
    match (state, event) {
        (ListingStateModel::AwaitingCache(plan), ListingEventModel::CacheReply(Some(cached))) => (
            ListingStateModel::Finished,
            ListingActionModel::Serve(cached),
        ),
        (ListingStateModel::AwaitingCache(plan), ListingEventModel::CacheReply(None)) => (
            ListingStateModel::AwaitingStore(plan),
            store_query(plan),
        ),
        (ListingStateModel::AwaitingCache(plan), ListingEventModel::CacheFailed) => (
            ListingStateModel::AwaitingStore(plan),
            store_query(plan),
        ),
        (ListingStateModel::AwaitingStore(plan), ListingEventModel::StoreReply(reply)) => (
            ListingStateModel::Finished,
            store_outcome(config, plan, reply),
        ),
        _ => (ListingStateModel::Finished, ListingActionModel::Fail(GatewayError::UpstreamError)),
    }
}

/// Normalizing a prefix twice changes nothing, and a path is listed alike
/// with and without the delimiter at its end: the plan, hence the cache key
/// and the call to the store, is the same. The empty path is the root and
/// stays empty.
pub proof fn lemma_trailing_delimiter_is_immaterial(
    config: ConfigModel,
    path: Seq<char>,
    cursor: Option<Seq<char>>,
    limit: Option<usize>,
)
    requires
        path.len() > 0,
        path.last() != DELIMITER,
    ensures
        normalized(normalized(path)) == normalized(path),
        normalized(path.push(DELIMITER)) == normalized(path),
        listing_begin(config, path.push(DELIMITER), cursor, limit) == listing_begin(
            config,
            path,
            cursor,
            limit,
        ),
{
}

/// The page size that a cache key is written with.
pub open spec fn keyed_limit(limit: Option<usize>) -> nat {
    match limit {
        Some(n) => n as nat,
        None => 0,
    }
}

/// Listings of one prefix from one cursor on that differ in their page size
/// do not share a cache entry: their keys differ.
pub proof fn lemma_page_size_tells_cache_keys_apart(
    bucket: Seq<char>,
    prefix: Seq<char>,
    cursor: Option<Seq<char>>,
    one: Option<usize>,
    other: Option<usize>,
)
    ensures
        cache_key_of(bucket, prefix, cursor, one) == cache_key_of(bucket, prefix, cursor, other)
            <==> keyed_limit(one) == keyed_limit(other),
{
    let front = "s3://"@ + bucket + "/"@ + prefix + "@"@ + match cursor {
        Some(c) => c,
        None => Seq::empty(),
    } + "+"@;
    let a = decimal(keyed_limit(one));
    let b = decimal(keyed_limit(other));
    assert(cache_key_of(bucket, prefix, cursor, one) == front + a);
    assert(cache_key_of(bucket, prefix, cursor, other) == front + b);
    if front + a == front + b {
        assert((front + a).skip(front.len() as int) =~= a);
        assert((front + b).skip(front.len() as int) =~= b);
        lemma_decimal_reads_back(keyed_limit(one));
        lemma_decimal_reads_back(keyed_limit(other));
    }
}

/// The store is asked only when the cache has nothing or cannot be asked,
/// and what the cache has is served as it is.
pub proof fn lemma_store_is_asked_only_on_a_miss(
    config: ConfigModel,
    state: ListingStateModel,
    event: ListingEventModel,
)
    ensures
        listing_next(config, state, event).1 is ListPage ==> state is AwaitingCache && (event
            == ListingEventModel::CacheReply(None) || event is CacheFailed),
        state is AwaitingCache ==> (event matches ListingEventModel::CacheReply(Some(cached))
            ==> listing_next(config, state, event) == (
            ListingStateModel::Finished,
            ListingActionModel::Serve(cached),
        )),
{
}

/// A store that answers in good order with a page under which nothing lies
/// is answered like a prefix that does not exist.
pub proof fn lemma_empty_listing_is_not_found(
    config: ConfigModel,
    plan: PlanModel,
    listing: StoreListingModel,
)
    requires
        is_success(listing.status),
        forall|i: int|
            0 <= i < listing.page.contents.len() ==> !plan.prefix.is_prefix_of(
                #[trigger] listing.page.contents[i].key,
            ),
        forall|i: int|
            0 <= i < listing.page.common_prefixes.len() ==> !plan.prefix.is_prefix_of(
                #[trigger] listing.page.common_prefixes[i],
            ),
    ensures
        store_outcome(config, plan, Some(listing)) == ListingActionModel::Fail(
            GatewayError::NotFound,
        ),
{
    lemma_nothing_under_prefix_is_not_found(config.api_url, plan.prefix, listing.page);
}

/// Makes a prefix of a path: appends the delimiter unless the path is empty
/// or ends with it.
pub fn normalize_prefix(path: String) -> (prefix: String)
    ensures
        prefix@ == normalized(path@),
{
    let mut prefix = path;
    if !prefix.as_str().is_empty() && !ends_with(prefix.as_str(), DELIMITER) {
        prefix.append("/");
        proof {
            reveal_strlit("/");
        }
        assert(prefix@ =~= path@.push(DELIMITER));
    }
    prefix
}

/// Reads the page size that the gateway imposes on every listing.
pub fn page_size_cap(text: &str) -> (r: Result<usize, GatewayError>)
    ensures
        r == page_size_cap_of(text@),
{
    match parse_decimal(text) {
        Some(n) => {
            if n > 0 {
                Ok(n)
            } else {
                Err(GatewayError::ConfigurationError)
            }
        },
        None => Err(GatewayError::ConfigurationError),
    }
}

/// The page size to ask the store for.
pub fn limit_for(cap: Option<usize>, requested: Option<usize>) -> (limit: Option<usize>)
    ensures
        limit == effective_limit(cap, requested),
{
    match cap {
        Some(n) => Some(n),
        None => requested,
    }
}

/// Composes the key under which a listing is cached.
pub fn cache_key(bucket: &str, prefix: &str, cursor: &Option<String>, limit: Option<usize>) -> (key:
    String)
    ensures
        key@ == cache_key_of(bucket@, prefix@, cursor.deep_view(), limit),
{
    let mut key = String::from_str("s3://");
    key.append(bucket);
    key.append("/");
    key.append(prefix);
    key.append("@");
    match cursor {
        Some(c) => {
            key.append(c.as_str());
        },
        None => {
            assert(key@ + Seq::<char>::empty() =~= key@);
        },
    }
    key.append("+");
    let size: usize = match limit {
        Some(n) => n,
        None => 0,
    };
    let digits = decimal_text(size);
    key.append(digits.as_str());
    key
}

/// A copy of an optional string.
fn clone_text(text: &Option<String>) -> (r: Option<String>)
    ensures
        r.deep_view() == text.deep_view(),
{
    match text {
        Some(t) => Some(t.clone()),
        None => None,
    }
}

/// Decides what the store's answer comes to.
pub fn settle(config: &GatewayConfig, plan: ListingPlan, reply: Option<StoreListing>) -> (action:
    ListingAction)
    ensures
        action@ == store_outcome(config@, plan@, reply.deep_view()),
{
    match reply {
        None => ListingAction::Fail(GatewayError::UpstreamError),
        Some(listing) => {
            if !succeeded(listing.status) {
                return ListingAction::Fail(GatewayError::UpstreamError);
            }
            let ListingPlan { prefix, cache_key, .. } = plan;
            match build_view(config.api_url.as_str(), prefix, listing.page) {
                Err(e) => ListingAction::Fail(e),
                Ok(response) => ListingAction::ServeAndCache {
                    response,
                    cache_key,
                    ttl_seconds: LISTING_TTL_SECONDS,
                },
            }
        },
    }
}

/// Starts the listing of `path`: plans the request and asks for a look into
/// the cache.
pub fn list_s3(
    config: &GatewayConfig,
    path: String,
    cursor: Option<String>,
    limit: Option<usize>,
) -> (r: (ListingState, ListingAction))
    ensures
        (r.0@, r.1@) == listing_begin(config@, path@, cursor.deep_view(), limit),
{
    let prefix = normalize_prefix(path);
    let limit = limit_for(config.max_limit, limit);
    let key = cache_key(config.bucket.as_str(), prefix.as_str(), &cursor, limit);
    let look_up = ListingAction::LookUp { cache_key: key.clone() };
    (ListingState::AwaitingCache(ListingPlan { prefix, cursor, limit, cache_key: key }), look_up)
}

impl ListingState {
    /// Takes the request on with the answer `event`.
    pub fn step(self, config: &GatewayConfig, event: ListingEvent) -> (r: (
        ListingState,
        ListingAction,
    ))
        ensures
            (r.0@, r.1@) == listing_next(config@, self@, event@),
    {
        match self {
            ListingState::AwaitingCache(plan) => match event {
                ListingEvent::CacheReply(Some(cached)) => (
                    ListingState::Finished,
                    ListingAction::Serve(cached),
                ),
                ListingEvent::CacheReply(None) | ListingEvent::CacheFailed => {
                    let query = ListingAction::ListPage {
                        prefix: plan.prefix.clone(),
                        delimiter: DELIMITER,
                        cursor: clone_text(&plan.cursor),
                        limit: plan.limit,
                    };
                    (ListingState::AwaitingStore(plan), query)
                },
                ListingEvent::StoreReply(_) => (
                    ListingState::Finished,
                    ListingAction::Fail(GatewayError::UpstreamError),
                ),
            },
            ListingState::AwaitingStore(plan) => match event {
                ListingEvent::StoreReply(reply) => (
                    ListingState::Finished,
                    settle(config, plan, reply),
                ),
                _ => (ListingState::Finished, ListingAction::Fail(GatewayError::UpstreamError)),
            },
            ListingState::Finished => (
                ListingState::Finished,
                ListingAction::Fail(GatewayError::UpstreamError),
            ),
        }
    }
}

} // verus!
