//! The signing keys of one realm, kept for a while. The cache decides when
//! the keys may be used, when they must be fetched again, and who fetches
//! them; the fetching itself is the caller's.

use crate::jose::{decode_header, jose_header};
use crate::keys::{kid_absent, lemma_selection_by_kid, opt_str, MissingKidPolicy};
use crate::model::{KeycloakCerts, KeycloakKey};
use vstd::prelude::*;

verus! {

/// What a caller that needs the keys is to do.
#[derive(Clone, Copy, Debug, PartialEq, Eq, Structural)]
pub enum CacheAdvice {
    /// The cached keys serve the request.
    UseCached,
    /// Fetch the keys: they are missing, too old, or lack the key asked
    /// for, and nobody is fetching them.
    Fetch,
    /// Wait: somebody is fetching the keys already.
    AwaitRefresh,
}

/// A cache as plain values.
pub struct CacheView {
    pub realm: Seq<char>,
    /// How long fetched keys are good for, in seconds.
    pub ttl: u64,
    /// The keys as they were last fetched.
    pub keys: Option<Seq<KeycloakKey>>,
    /// When they were fetched, in seconds since the epoch.
    pub fetched_at: u64,
    /// Whether a fetch is in flight.
    pub refreshing: bool,
}

/// The signing keys of one realm, with the time they were fetched at.
#[derive(Clone, Debug, PartialEq, Eq)]
pub struct JwksCache {
    realm: String,
    ttl: u64,
    certs: Option<KeycloakCerts>,
    fetched_at: u64,
    refreshing: bool,
}

impl View for JwksCache {
    type V = CacheView;

    closed spec fn view(&self) -> CacheView {
        CacheView {
            realm: self.realm@,
            ttl: self.ttl,
            keys: match self.certs {
                Some(certs) => Some(certs.keys@),
                None => None,
            },
            fetched_at: self.fetched_at,
            refreshing: self.refreshing,
        }
    }
}

/// The age at `now` of what was fetched at `fetched_at`. A clock that ran
/// backwards makes nothing older.
pub open spec fn age(fetched_at: u64, now: u64) -> int {
    if now >= fetched_at {
        now - fetched_at
    } else {
        0
    }
}

/// The cached keys serve a token that names `kid`: there are keys, they are
/// younger than the time to live, and they hold the named key.
pub open spec fn serves(cache: CacheView, kid: Option<Seq<char>>, now: u64) -> bool {
    &&& cache.keys matches Some(keys)
    &&& age(cache.fetched_at, now) < cache.ttl
    &&& kid matches Some(kid) ==> !kid_absent(keys, kid)
}

/// The key that the header of `token` names; none where the header cannot
/// be read.
pub open spec fn named_kid(token: Seq<char>) -> Option<Seq<char>> {
    match jose_header(token) {
        Some(header) => header.kid,
        None => None,
    }
}

/// What a caller is to do for a token that names `kid`.
pub open spec fn advice(cache: CacheView, kid: Option<Seq<char>>, now: u64) -> CacheAdvice {
    if serves(cache, kid, now) {
        CacheAdvice::UseCached
    } else if cache.refreshing {
        CacheAdvice::AwaitRefresh
    } else {
        CacheAdvice::Fetch
    }
}

/// The cache after a fetch has ended: with the fetched keys and their time
/// where it brought any, as it was where it failed; in both cases with no
/// fetch in flight.
pub open spec fn refreshed(cache: CacheView, fetched: Option<KeycloakCerts>, now: u64)
    -> CacheView {
    match fetched {
        Some(certs) => CacheView {
            keys: Some(certs.keys@),
            fetched_at: now,
            refreshing: false,
            ..cache
        },
        None => CacheView { refreshing: false, ..cache },
    }
}

/// A token that names a key which the cached set lacks is never served
/// from the cache: the keys are fetched again, by one caller at a time.
pub proof fn lemma_unknown_key_forces_refresh(cache: CacheView, kid: Seq<char>, now: u64)
    requires
        cache.keys matches Some(keys) ==> kid_absent(keys, kid),
    ensures
        advice(cache, Some(kid), now) == if cache.refreshing {
            CacheAdvice::AwaitRefresh
        } else {
            CacheAdvice::Fetch
        },
{
}

/// Keys that have just been fetched serve every token that names one of
/// them, for as long as the time to live.
pub proof fn lemma_fetched_keys_serve(
    cache: CacheView,
    certs: KeycloakCerts,
    fetched_at: u64,
    kid: Seq<char>,
    now: u64,
)
    requires
        !kid_absent(certs.keys@, kid),
        fetched_at <= now,
        now - fetched_at < cache.ttl,
    ensures
        advice(refreshed(cache, Some(certs), fetched_at), Some(kid), now)
            == CacheAdvice::UseCached,
{
}

impl KeycloakCerts {
    /// Whether the set holds a key with the id `kid`.
    pub fn has_kid(&self, kid: &str) -> (r: bool)
        ensures
            r == !kid_absent(self.keys@, kid@),
    {
        proof {
            lemma_selection_by_kid(self.keys@, kid@);
        }
        self.select_key(Some(kid), MissingKidPolicy::Reject).is_ok()
    }
}

impl JwksCache {
    /// An empty cache for `realm`, whose keys will be good for `ttl`
    /// seconds.
    pub fn new(realm: String, ttl: u64) -> (r: Self)
        ensures
            r@ == (CacheView {
                realm: realm@,
                ttl,
                keys: None,
                fetched_at: 0,
                refreshing: false,
            }),
    {
        JwksCache { realm, ttl, certs: None, fetched_at: 0, refreshing: false }
    }

    /// The realm whose keys these are.
    pub fn realm(&self) -> (r: &str)
        ensures
            r@ == self@.realm,
    {
        self.realm.as_str()
    }

    /// The keys as they were last fetched, whatever their age.
    pub fn keys(&self) -> (r: Option<&KeycloakCerts>)
        ensures
            match r {
                Some(certs) => self@.keys == Some(certs.keys@),
                None => self@.keys is None,
            },
    {
        self.certs.as_ref()
    }

    /// What a caller is to do at `now` for a token that names `kid`.
    pub fn advise(&self, kid: Option<&str>, now: u64) -> (r: CacheAdvice)
        ensures
            r == advice(self@, opt_str(kid), now),
    {
        let served = match &self.certs {
            None => false,
            Some(certs) => {
                let age = if now >= self.fetched_at {
                    now - self.fetched_at
                } else {
                    0
                };
                age < self.ttl && match kid {
                    Some(kid) => certs.has_kid(kid),
                    None => true,
                }
            },
        };
        if served {
            CacheAdvice::UseCached
        } else if self.refreshing {
            CacheAdvice::AwaitRefresh
        } else {
            CacheAdvice::Fetch
        }
    }

    /// What a caller is to do at `now` for `token`, by the key that its
    /// header names.
    pub fn advise_for_token(&self, token: &str, now: u64) -> (r: CacheAdvice)
        ensures
            r == advice(self@, named_kid(token@), now),
    {
        match decode_header(token) {
            Some(header) => match &header.kid {
                Some(kid) => self.advise(Some(kid.as_str()), now),
                None => self.advise(None, now),
            },
            None => self.advise(None, now),
        }
    }

    /// Claims the fetch. Returns whether the caller is the one to fetch:
    /// it is unless a fetch is in flight already.
    pub fn try_begin_refresh(&mut self) -> (r: bool)
        ensures
            r == !old(self)@.refreshing,
            final(self)@ == (CacheView { refreshing: true, ..old(self)@ }),
    {
        let first = !self.refreshing;
        self.refreshing = true;
        first
    }

    /// Ends the fetch: `fetched` holds the keys where it brought any, and
    /// `now` is the time it ended at.
    pub fn complete_refresh(&mut self, fetched: Option<KeycloakCerts>, now: u64)
        ensures
            final(self)@ == refreshed(old(self)@, fetched, now),
    {
        match fetched {
            Some(certs) => {
                self.certs = Some(certs);
                self.fetched_at = now;
            },
            None => {},
        }
        self.refreshing = false;
    }
}

} // verus!
