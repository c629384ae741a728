//! Durable user records and their lookup indexes (e-mail → id, lower-case
//! username → id), kept as JSON documents in the store.
use vstd::prelude::*;

use super::validation::{spec_to_lowercase, to_lowercase};
use crate::db::keyed::KeyedList;
use crate::db::store::StoreError;

verus! {

/// Rating a new account starts with.
pub const STARTING_RATING: i64 = 1200;

pub struct GhUser {
    pub id: String,
    pub username: String,
    pub username_lower: String,
    pub email: String,
    pub password_hash: String,
    pub email_verified: bool,
    pub rating: i64,
    pub coin_balance: i64,
    pub two_fa_enabled: bool,
    pub two_fa_secret: Option<String>,
    pub role: String,
    pub status: String,
    pub avatar_id: Option<String>,
    pub banner_id: Option<String>,
    pub bio: Option<String>,
    pub created_at: String,
    pub updated_at: String,
}

/// A fresh account created at `now`: verified (mail may be unconfigured),
/// rated 1200, no coins, no 2FA, role `user`, status `active`.
pub fn new_user(id: String, username: String, email: String, password_hash: String, now: String) -> (u:
    GhUser)
    ensures
        u.id@ == id@,
        u.username@ == username@,
        u.username_lower@ == spec_to_lowercase(username@),
        u.email@ == email@,
        u.password_hash@ == password_hash@,
        u.email_verified,
        u.rating == STARTING_RATING,
        u.coin_balance == 0,
        !u.two_fa_enabled,
        u.two_fa_secret is None,
        u.role@ == "user"@,
        u.status@ == "active"@,
        u.avatar_id is None && u.banner_id is None && u.bio is None,
        u.created_at@ == now@,
        u.updated_at@ == now@,
{
    let username_lower = to_lowercase(username.as_str());
    let created_at = now.clone();
    GhUser {
        id,
        username_lower,
        username,
        email,
        password_hash,
        email_verified: true,
        rating: STARTING_RATING,
        coin_balance: 0,
        two_fa_enabled: false,
        two_fa_secret: None,
        role: String::from_str("user"),
        status: String::from_str("active"),
        avatar_id: None,
        banner_id: None,
        bio: None,
        created_at,
        updated_at: now,
    }
}

/// An index as read from the store: a missing index is an empty one.
pub fn index_or_empty(read: Result<KeyedList<String>, StoreError>) -> (r: Result<
    KeyedList<String>,
    StoreError,
>)
    requires
        read matches Ok(m) ==> m.wf(),
    ensures
        match read {
            Ok(m) => r matches Ok(x) && x.wf() && x@ == m@,
            Err(StoreError::NotFound) => r matches Ok(x) && x.wf() && x@ == Map::<
                Seq<char>,
                String,
            >::empty(),
            Err(_) => r is Err,
        },
{
    match read {
        Ok(m) => Ok(m),
        Err(StoreError::NotFound) => Ok(KeyedList::new()),
        Err(e) => Err(e),
    }
}

pub open spec fn index_lookup(index: Option<Map<Seq<char>, String>>, key: Seq<char>) -> Option<Seq<char>> {
    match index {
        Some(m) => if m.dom().contains(key) {
            Some(m[key]@)
        } else {
            None
        },
        None => None,
    }
}

pub open spec fn index_view(index: Option<&KeyedList<String>>) -> Option<Map<Seq<char>, String>> {
    match index {
        Some(m) => Some(m@),
        None => None,
    }
}

/// The id of the account with this lower-case e-mail or username: the
/// e-mail index is asked first. An index that could not be read (`None`)
/// is passed over.
pub fn find_user_id_by_identifier(
    email_index: Option<&KeyedList<String>>,
    username_index: Option<&KeyedList<String>>,
    identifier_lower: &str,
) -> (r: Option<String>)
    requires
        email_index matches Some(m) ==> m.wf(),
        username_index matches Some(m) ==> m.wf(),
    ensures
        (match r {
            Some(id) => Some(id@),
            None => None,
        }) == (match index_lookup(index_view(email_index), identifier_lower@) {
            Some(id) => Some(id),
            None => index_lookup(index_view(username_index), identifier_lower@),
        }),
{
    match email_index {
        Some(m) => match m.get(identifier_lower) {
            Some(id) => {
                return Some(id.clone());
            },
            None => {},
        },
        None => {},
    }
    match username_index {
        Some(m) => match m.get(identifier_lower) {
            Some(id) => Some(id.clone()),
            None => None,
        },
        None => None,
    }
}

/// Whether the username and the e-mail are already in use; an index that
/// could not be read counts as not containing the key.
pub fn username_or_email_taken(
    username_index: Option<&KeyedList<String>>,
    email_index: Option<&KeyedList<String>>,
    username_lower: &str,
    email_lower: &str,
) -> (r: (bool, bool))
    ensures
        r.0 == (username_index matches Some(m) && m@.dom().contains(username_lower@)),
        r.1 == (email_index matches Some(m) && m@.dom().contains(email_lower@)),
{
    let user_taken = match username_index {
        Some(m) => m.contains_key(username_lower),
        None => false,
    };
    let email_taken = match email_index {
        Some(m) => m.contains_key(email_lower),
        None => false,
    };
    (user_taken, email_taken)
}

/// Saving a user points both indexes at it.
pub fn index_user(email_index: &mut KeyedList<String>, username_index: &mut KeyedList<String>, user: &GhUser)
    requires
        old(email_index).wf(),
        old(username_index).wf(),
    ensures
        final(email_index).wf(),
        final(username_index).wf(),
        final(email_index)@ == old(email_index)@.insert(user.email@, user.id),
        final(username_index)@ == old(username_index)@.insert(user.username_lower@, user.id),
{
    email_index.insert(user.email.clone(), user.id.clone());
    username_index.insert(user.username_lower.clone(), user.id.clone());
}

} // verus!
