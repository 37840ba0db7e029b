//! What the cache means to the services.
//!
//! The cache itself is a service of its own, outside this library. Here it
//! is a map from keys to entries: what it would hold if every write reached
//! it. An entry is a view and the time from which it is gone, and time is
//! counted in seconds. The laws below say what the listing and the upload
//! service make of such a cache.

use crate::listing::{
    listing_begin, listing_next, plan_of, store_outcome, ConfigModel, ListingActionModel,
    ListingEventModel, ListingStateModel, StoreListingModel, LISTING_TTL_SECONDS,
};
use crate::response::ViewModel;
use crate::upload::{upload_next, UploadActionModel, UploadEventModel, UploadStateModel};
use vstd::prelude::*;

verus! {

/// What the cache holds under one key.
pub struct EntryModel {
    pub view: ViewModel,
    /// The first second at which the entry is no longer there.
    pub expires_at: nat,
}

/// What the cache answers when it is asked for `key` at the time `now`.
pub open spec fn cache_reply(cache: Map<Seq<char>, EntryModel>, key: Seq<char>, now: nat) -> Option<
    ViewModel,
> {
    if cache.contains_key(key) && now < cache[key].expires_at {
        Some(cache[key].view)
    } else {
        None
    }
}

/// What the cache holds once the caller has done, at the time `now`, what
/// the listing service asked for.
pub open spec fn cache_after_listing(
    cache: Map<Seq<char>, EntryModel>,
    action: ListingActionModel,
    now: nat,
) -> Map<Seq<char>, EntryModel> {
    match action {
        ListingActionModel::ServeAndCache { response, cache_key, ttl_seconds } => cache.insert(
            cache_key,
            EntryModel { view: response, expires_at: now + ttl_seconds as nat },
        ),
        _ => cache,
    }
}

/// What the cache holds once the caller has done what the upload service
/// asked for.
pub open spec fn cache_after_upload(
    cache: Map<Seq<char>, EntryModel>,
    action: UploadActionModel,
) -> Map<Seq<char>, EntryModel> {
    match action {
        UploadActionModel::ClearCacheAndSucceed => Map::empty(),
        _ => cache,
    }
}

/// One listing request from its start to its answer, at the time `now`: how
/// the request ends, and what the cache holds then, given what the cache
/// holds before and what the store answers if it is asked.
pub open spec fn serve_listing(
    config: ConfigModel,
    path: Seq<char>,
    cursor: Option<Seq<char>>,
    limit: Option<usize>,
    cache: Map<Seq<char>, EntryModel>,
    now: nat,
    store: Option<StoreListingModel>,
) -> (ListingActionModel, Map<Seq<char>, EntryModel>) {
    let begun = listing_begin(config, path, cursor, limit);
    let key = plan_of(config, path, cursor, limit).cache_key;
    let looked = listing_next(
        config,
        begun.0,
        ListingEventModel::CacheReply(cache_reply(cache, key, now)),
    );
    let last = if looked.1 is ListPage {
        listing_next(config, looked.0, ListingEventModel::StoreReply(store)).1
    } else {
        looked.1
    };
    (last, cache_after_listing(cache, last, now))
}

/// A listing that the store has answered is answered with the same view
/// when it is asked again with the same path, cursor and page size within
/// `LISTING_TTL_SECONDS`: the second answer comes from the cache, whatever
/// the store would say by then, and leaves the cache as it is. A listing
/// that the cache has answered is answered alike until the entry expires.
pub proof fn lemma_repeated_listing_is_served_from_cache(
    config: ConfigModel,
    path: Seq<char>,
    cursor: Option<Seq<char>>,
    limit: Option<usize>,
    cache: Map<Seq<char>, EntryModel>,
    first_at: nat,
    first: Option<StoreListingModel>,
    second_at: nat,
    second: Option<StoreListingModel>,
)
    requires
        first_at <= second_at,
    ensures
        ({
            let key = plan_of(config, path, cursor, limit).cache_key;
            let once = serve_listing(config, path, cursor, limit, cache, first_at, first);
            let twice = serve_listing(config, path, cursor, limit, once.1, second_at, second);
            let fresh_until = first_at + LISTING_TTL_SECONDS;
            &&& once.0 matches ListingActionModel::ServeAndCache { response, .. } ==> (second_at
                < fresh_until ==> twice == (ListingActionModel::Serve(response), once.1))
            &&& once.0 matches ListingActionModel::Serve(response) ==> (second_at
                < cache[key].expires_at ==> twice == (ListingActionModel::Serve(response), once.1))
        }),
{
}

/// The step that completes an upload clears the cache, so that the listing
/// that follows it, of whatever prefix and at whatever time, is made from
/// what the store answers then and from nothing that was cached before.
pub proof fn lemma_listing_after_upload_asks_store(
    state: UploadStateModel,
    event: UploadEventModel,
    cache: Map<Seq<char>, EntryModel>,
    config: ConfigModel,
    path: Seq<char>,
    cursor: Option<Seq<char>>,
    limit: Option<usize>,
    now: nat,
    store: Option<StoreListingModel>,
)
    requires
        !(state is Done),
        upload_next(state, event).0 is Done,
    ensures
        state is Completing,
        event is Completed,
        cache_after_upload(cache, upload_next(state, event).1) == Map::<
            Seq<char>,
            EntryModel,
        >::empty(),
        serve_listing(
            config,
            path,
            cursor,
            limit,
            cache_after_upload(cache, upload_next(state, event).1),
            now,
            store,
        ).0 == store_outcome(config, plan_of(config, path, cursor, limit), store),
{
}

/// A cache that cannot be asked does not fail the listing: the request goes
/// on as if the cache held nothing.
pub proof fn lemma_cache_failure_is_a_miss(config: ConfigModel, state: ListingStateModel)
    ensures
        listing_next(config, state, ListingEventModel::CacheFailed) == listing_next(
            config,
            state,
            ListingEventModel::CacheReply(None),
        ),
{
}

/// A listing that fails leaves the cache as it is: what is not found, and
/// what the store could not answer, is not cached.
pub proof fn lemma_failed_listing_is_not_cached(
    config: ConfigModel,
    path: Seq<char>,
    cursor: Option<Seq<char>>,
    limit: Option<usize>,
    cache: Map<Seq<char>, EntryModel>,
    now: nat,
    store: Option<StoreListingModel>,
)
    ensures
        ({
            let served = serve_listing(config, path, cursor, limit, cache, now, store);
            served.0 is Fail ==> served.1 == cache
        }),
{
}

} // verus!
