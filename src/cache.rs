use vstd::prelude::*;
use crate::error::FirmwareError;
use crate::timestamp::{exceeded, exceeded_spec};

verus! {

/// Where a lookup of the cached pointer record stands.
#[derive(Clone, Copy, Debug, PartialEq, Eq)]
pub enum CacheState {
    /// Nothing is known yet about the cache file.
    Start,
    /// The file is fresh and being read back.
    Reading,
    /// The file is absent or stale and a new record is being fetched.
    Fetching,
    /// A fetched record is being written over the file.
    Storing,
    /// The lookup has ended.
    Done,
}

/// What the caller reports after carrying out the last action.
#[derive(Debug, PartialEq, Eq)]
pub enum CacheEvent {
    /// The cache file's modification time (`None` where it cannot be read)
    /// and the current time, both in seconds since the epoch.
    Stat { modified: Option<u64>, now: u64 },
    /// The outcome of reading and decoding the cached record.
    Loaded(Result<(), String>),
    /// The outcome of fetching a new record.
    Fetched(Result<(), String>),
    /// The outcome of writing the fetched record over the cache file.
    Stored(Result<(), String>),
}

/// What the caller is to do next.
#[derive(Clone, Debug, PartialEq, Eq)]
pub enum CacheAction {
    /// Read and decode the cached record.
    ReadCached,
    /// Fetch a new record from the distribution service.
    Fetch,
    /// Write the fetched record over the cache file.
    Store,
    /// Hand back the record that was read from the cache.
    ReturnCached,
    /// Hand back the record that was fetched.
    ReturnFetched,
    /// Stop with this error.
    Fail(FirmwareError),
}

/// Whether `event` is the report that `state` waits for.
pub open spec fn cache_accepts_spec(state: CacheState, event: CacheEvent) -> bool {
    match state {
        CacheState::Start => event is Stat,
        CacheState::Reading => event is Loaded,
        CacheState::Fetching => event is Fetched,
        CacheState::Storing => event is Stored,
        CacheState::Done => false,
    }
}

/// The transition table of a pointer-cache lookup. A fresh file is read and
/// trusted; an absent or stale one is replaced by a fetched record; a fresh
/// file that cannot be read is an error, never a reason to fetch.
pub open spec fn cache_next(state: CacheState, event: CacheEvent, stale_after: u64) -> (CacheState, CacheAction) {
    match event {
        CacheEvent::Stat { modified, now } => match modified {
            Some(m) if !exceeded_spec(m, now, stale_after) => (CacheState::Reading, CacheAction::ReadCached),
            _ => (CacheState::Fetching, CacheAction::Fetch),
        },
        CacheEvent::Loaded(Ok(())) => (CacheState::Done, CacheAction::ReturnCached),
        CacheEvent::Loaded(Err(e)) => (CacheState::Done, CacheAction::Fail(FirmwareError::CacheCorrupt(e))),
        CacheEvent::Fetched(Ok(())) => (CacheState::Storing, CacheAction::Store),
        CacheEvent::Fetched(Err(e)) => (CacheState::Done, CacheAction::Fail(FirmwareError::Network(e))),
        CacheEvent::Stored(Ok(())) => (CacheState::Done, CacheAction::ReturnFetched),
        CacheEvent::Stored(Err(e)) => (CacheState::Done, CacheAction::Fail(FirmwareError::Filesystem(e))),
    }
}

impl CacheState {
    pub fn accepts(&self, event: &CacheEvent) -> (r: bool)
        ensures
            r == cache_accepts_spec(*self, *event),
    {
        match self {
            CacheState::Start => matches!(event, CacheEvent::Stat { .. }),
            CacheState::Reading => matches!(event, CacheEvent::Loaded(_)),
            CacheState::Fetching => matches!(event, CacheEvent::Fetched(_)),
            CacheState::Storing => matches!(event, CacheEvent::Stored(_)),
            CacheState::Done => false,
        }
    }

    /// Takes the report of the last action and returns the next state and
    /// the next action.
    pub fn step(self, event: CacheEvent, stale_after: u64) -> (r: (CacheState, CacheAction))
        requires
            cache_accepts_spec(self, event),
        ensures
            r == cache_next(self, event, stale_after),
    {
        match event {
            CacheEvent::Stat { modified, now } => match modified {
                Some(m) => {
                    if exceeded(m, now, stale_after) {
                        (CacheState::Fetching, CacheAction::Fetch)
                    } else {
                        (CacheState::Reading, CacheAction::ReadCached)
                    }
                },
                None => (CacheState::Fetching, CacheAction::Fetch),
            },
            CacheEvent::Loaded(Ok(())) => (CacheState::Done, CacheAction::ReturnCached),
            CacheEvent::Loaded(Err(e)) => (CacheState::Done, CacheAction::Fail(FirmwareError::CacheCorrupt(e))),
            CacheEvent::Fetched(Ok(())) => (CacheState::Storing, CacheAction::Store),
            CacheEvent::Fetched(Err(e)) => (CacheState::Done, CacheAction::Fail(FirmwareError::Network(e))),
            CacheEvent::Stored(Ok(())) => (CacheState::Done, CacheAction::ReturnFetched),
            CacheEvent::Stored(Err(e)) => (CacheState::Done, CacheAction::Fail(FirmwareError::Filesystem(e))),
        }
    }
}

/// A new record is fetched only at the start of a lookup, and only where the
/// cache file is absent or stale: in particular a fresh file that fails to
/// decode ends the lookup with `CacheCorrupt` and no fetch.
pub proof fn lemma_fetch_only_when_stale(state: CacheState, event: CacheEvent, stale_after: u64)
    requires
        cache_accepts_spec(state, event),
    ensures
        cache_next(state, event, stale_after).1 == CacheAction::Fetch ==> state == CacheState::Start
            && match event {
                CacheEvent::Stat { modified, now } => match modified {
                    Some(m) => exceeded_spec(m, now, stale_after),
                    None => true,
                },
                _ => false,
            },
        state == CacheState::Reading ==> match event {
            CacheEvent::Loaded(Err(e)) => cache_next(state, event, stale_after) == (CacheState::Done, CacheAction::Fail(FirmwareError::CacheCorrupt(e))),
            _ => true,
        },
{
}

} // verus!
