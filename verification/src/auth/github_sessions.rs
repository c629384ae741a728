//! Durable sessions and the index from refresh-token hash to session id,
//! which keeps the previous hash of a rotated session so that its reuse is
//! recognised.
use vstd::prelude::*;

use crate::db::keyed::{remove_value, without_value, KeyedList};

verus! {

pub struct GhSession {
    pub id: String,
    pub user_id: String,
    pub refresh_token_hash: String,
    pub previous_refresh_token_hash: Option<String>,
    pub device_fingerprint: Option<String>,
    pub is_active: bool,
    pub created_at: String,
    pub expires_at: String,
    pub last_seen_at: Option<String>,
}

/// A session opened at `now`, expiring at `expires_at` (three days later).
pub fn new_session(
    session_id: String,
    user_id: &str,
    refresh_hash: &str,
    device_fingerprint: Option<&str>,
    now: String,
    expires_at: String,
) -> (s: GhSession)
    ensures
        s.id@ == session_id@,
        s.user_id@ == user_id@,
        s.refresh_token_hash@ == refresh_hash@,
        s.previous_refresh_token_hash is None,
        match device_fingerprint {
            Some(f) => (s.device_fingerprint matches Some(g) && g@ == f@),
            None => s.device_fingerprint is None,
        },
        s.is_active,
        s.created_at@ == now@,
        s.expires_at@ == expires_at@,
        (s.last_seen_at matches Some(t) && t@ == now@),
{
    let fp = match device_fingerprint {
        Some(f) => Some(String::from_str(f)),
        None => None,
    };
    let seen = now.clone();
    GhSession {
        id: session_id,
        user_id: String::from_str(user_id),
        refresh_token_hash: String::from_str(refresh_hash),
        previous_refresh_token_hash: None,
        device_fingerprint: fp,
        is_active: true,
        created_at: now,
        expires_at,
        last_seen_at: Some(seen),
    }
}

pub open spec fn spec_reindexed(m: Map<Seq<char>, String>, s: GhSession) -> Map<Seq<char>, String> {
    let base = without_value(m, s.id@).insert(s.refresh_token_hash@, s.id);
    match s.previous_refresh_token_hash {
        Some(p) => base.insert(p@, s.id),
        None => base,
    }
}

/// Points the hash index at a saved session: keys that pointed at it before
/// are dropped, then its current hash, and its previous one if any, point at it.
pub fn reindex_session(index: &mut KeyedList<String>, session: &GhSession)
    requires
        old(index).wf(),
    ensures
        final(index).wf(),
        final(index)@ == spec_reindexed(old(index)@, *session),
{
    remove_value(index, session.id.as_str());
    index.insert(session.refresh_token_hash.clone(), session.id.clone());
    match &session.previous_refresh_token_hash {
        Some(p) => index.insert(p.clone(), session.id.clone()),
        None => {},
    }
}

/// The session id a refresh-token hash leads to.
pub fn session_for_hash(index: &KeyedList<String>, hash: &str) -> (r: Option<String>)
    requires
        index.wf(),
    ensures
        index@.dom().contains(hash@) ==> (r matches Some(id) && id@ == index@[hash@]@),
        !index@.dom().contains(hash@) ==> r is None,
{
    match index.get(hash) {
        Some(id) => Some(id.clone()),
        None => None,
    }
}

/// After a session is indexed, its current hash and its previous hash lead
/// to it, and every other key that leads to it is one of those two.
pub proof fn lemma_reindex_finds_session(m: Map<Seq<char>, String>, s: GhSession, k: Seq<char>)
    ensures
        spec_reindexed(m, s).dom().contains(s.refresh_token_hash@),
        spec_reindexed(m, s)[s.refresh_token_hash@] == s.id,
        s.previous_refresh_token_hash matches Some(p) ==> spec_reindexed(m, s)[p@] == s.id,
        spec_reindexed(m, s).dom().contains(k) && spec_reindexed(m, s)[k]@ == s.id@ ==> (k
            == s.refresh_token_hash@ || (s.previous_refresh_token_hash matches Some(p) && k == p@)),
{
}

/// A session switched off.
pub fn deactivated(mut s: GhSession) -> (r: GhSession)
    ensures
        !r.is_active,
        r.id == s.id && r.user_id == s.user_id && r.refresh_token_hash == s.refresh_token_hash,
{
    s.is_active = false;
    s
}

} // verus!
