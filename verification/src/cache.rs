//! The status cache: the last summary that was built and the time it was
//! built at, served while it is young enough.

use crate::session::{Session, StatusError};
use crate::summary::{ServerInfo, ServerInfoView};
use vstd::prelude::*;

verus! {

/// The age in seconds up to which a summary is served without a refresh.
pub const CACHE_LIFETIME: u64 = 20;

/// The last summary that was built, with the time in seconds at which it was
/// built.
#[derive(Debug, PartialEq, Eq)]
pub struct StatusCache {
    pub last_update: u64,
    pub server_info: ServerInfo,
}

/// Mathematical value of a [`StatusCache`].
pub struct StatusCacheView {
    pub last_update: u64,
    pub server_info: ServerInfoView,
}

impl View for StatusCache {
    type V = StatusCacheView;

    open spec fn view(&self) -> StatusCacheView {
        StatusCacheView { last_update: self.last_update, server_info: self.server_info@ }
    }
}

/// A summary built at `last_update` is fresh at `now`: it is no older than
/// the cache lifetime. A summary whose time lies ahead of `now` is fresh.
pub open spec fn is_fresh(last_update: u64, now: u64) -> bool {
    now - last_update <= CACHE_LIFETIME
}

/// What is to be done about a request.
#[derive(Debug, PartialEq, Eq)]
pub enum Plan {
    /// The cached summary is fresh: this copy of it answers the request, and
    /// the remote query service is not called.
    Serve(ServerInfo),
    /// The cached summary is stale: this refresh attempt is to be carried out.
    Refresh(Session),
}

impl StatusCache {
    /// The cache of a process that starts at `now`: an empty summary that
    /// has just reached the end of its lifetime.
    pub fn new(now: u64) -> (cache: StatusCache)
        requires
            now >= CACHE_LIFETIME,
        ensures
            cache@ == (StatusCacheView {
                last_update: (now - CACHE_LIFETIME) as u64,
                server_info: ServerInfoView::empty(),
            }),
    {
        StatusCache { last_update: now - CACHE_LIFETIME, server_info: ServerInfo::default() }
    }

    /// Whether the cached summary is too old to be served at `now`.
    pub fn is_stale(&self, now: u64) -> (stale: bool)
        ensures
            stale == !is_fresh(self.last_update, now),
    {
        now > self.last_update && now - self.last_update > CACHE_LIFETIME
    }

    /// Decides about a request that arrives at `now`: a fresh summary is
    /// served as it is, a stale one calls for one refresh attempt, which
    /// starts with nothing gathered.
    pub fn plan(&self, now: u64) -> (plan: Plan)
        ensures
            match plan {
                Plan::Serve(info) => is_fresh(self.last_update, now) && info@
                    == self.server_info@,
                Plan::Refresh(session) => !is_fresh(self.last_update, now) && session
                    == Session::Connecting,
            },
    {
        if self.is_stale(now) {
            Plan::Refresh(Session::start())
        } else {
            Plan::Serve(self.server_info.clone())
        }
    }

    /// Puts a summary that was built at `now` in place of the cached one.
    pub fn store(&mut self, now: u64, info: &ServerInfo)
        ensures
            final(self)@ == (StatusCacheView { last_update: now, server_info: info@ }),
    {
        self.last_update = now;
        self.server_info = info.clone();
    }

    /// Ends a refresh attempt that was completed at `now`, and hands its
    /// outcome on. A summary takes the place of the cached one, with `now` as
    /// its time. An error leaves the cache as it was, so that the next request
    /// finds it as stale as this one did.
    pub fn conclude(&mut self, now: u64, outcome: Result<ServerInfo, StatusError>) -> (served:
        Result<ServerInfo, StatusError>)
        ensures
            served == outcome,
            match outcome {
                Ok(info) => final(self)@ == (StatusCacheView {
                    last_update: now,
                    server_info: info@,
                }),
                Err(_) => *final(self) == *old(self),
            },
    {
        match outcome {
            Ok(info) => {
                self.store(now, &info);
                Ok(info)
            },
            Err(error) => Err(error),
        }
    }
}

/// A summary is fresh from the moment it was built until it is older than the
/// cache lifetime.
pub proof fn lemma_fresh_window(built: u64, now: u64)
    requires
        built <= now,
    ensures
        is_fresh(built, now) <==> now <= built + CACHE_LIFETIME,
{
}

/// Staleness does not go away by itself: a cache that is stale at one time
/// and has not been written since is stale at every later time.
pub proof fn lemma_stale_until_stored(last_update: u64, now: u64, later: u64)
    requires
        !is_fresh(last_update, now),
        now <= later,
    ensures
        !is_fresh(last_update, later),
{
}

} // verus!
