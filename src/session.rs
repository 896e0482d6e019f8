//! The trust session: a small record, written by the daemon, that lets a
//! previously unlocked daemon be restarted without asking for the passphrase
//! again until it expires. The record is text of four fields joined by `:`:
//! `token:expires_unix:created_unix:encrypted_secret_hex`.

use vstd::prelude::*;
use crate::text::{decimal_i64, parse_decimal_i64, split_on, split_spec, views_of};

verus! {

pub const FIELD_SEPARATOR: char = ':';

pub const SESSION_FIELD_COUNT: usize = 4;

/// A trust session as the daemon recorded it. Only `expires_at` is
/// interpreted here; the other fields are carried through untouched.
pub struct TrustSession {
    pub token: String,
    /// Seconds since the Unix epoch after which the session is void.
    pub expires_at: i64,
    pub created_at: String,
    /// Hex ciphertext of the key material, only ever read by the daemon.
    pub encrypted_secret: String,
}

pub open spec fn session_fields(content: Seq<char>) -> Seq<Seq<char>> {
    split_spec(content, FIELD_SEPARATOR)
}

/// A record is well formed when it has exactly four fields and the second
/// one is a decimal 64-bit integer.
pub open spec fn well_formed_record(content: Seq<char>) -> bool {
    let f = session_fields(content);
    f.len() == SESSION_FIELD_COUNT && decimal_i64(f[1]) is Some
}

/// The expiry time that a well-formed record states.
pub open spec fn record_expiry(content: Seq<char>) -> i64 {
    decimal_i64(session_fields(content)[1])->Some_0
}

/// A record grants a silent restart at `now` when it is well formed and has
/// not yet expired.
pub open spec fn record_valid_at(content: Seq<char>, now: i64) -> bool {
    well_formed_record(content) && now < record_expiry(content)
}

/// `t` holds the four fields of `content` in order.
pub open spec fn session_matches(t: TrustSession, content: Seq<char>) -> bool {
    let f = session_fields(content);
    &&& f.len() == SESSION_FIELD_COUNT
    &&& t.token@ == f[0]
    &&& Some(t.expires_at) == decimal_i64(f[1])
    &&& t.created_at@ == f[2]
    &&& t.encrypted_secret@ == f[3]
}

impl TrustSession {
    /// A session is valid strictly before its expiry time.
    pub fn is_valid_at(&self, now: i64) -> (r: bool)
        ensures
            r == (now < self.expires_at),
    {
        now < self.expires_at
    }
}

/// Reads a trust session record, without regard to the time.
pub fn parse_trust_session(content: &str) -> (r: Option<TrustSession>)
    ensures
        r is Some <==> well_formed_record(content@),
        session_fields(content@).len() != SESSION_FIELD_COUNT ==> r is None,
        r matches Some(t) ==> session_matches(t, content@),
{
    let mut fields = split_on(content, FIELD_SEPARATOR);
    let ghost f = session_fields(content@);
    assert(views_of(fields@) == f);
    assert(views_of(fields@).len() == fields@.len());
    if fields.len() != SESSION_FIELD_COUNT {
        return None;
    }
    assert(fields@[1]@ == f[1]);
    let expires = parse_decimal_i64(fields[1].as_str());
    match expires {
        None => None,
        Some(expires_at) => {
            let encrypted_secret = fields.pop().unwrap();
            let created_at = fields.pop().unwrap();
            let _expiry_text = fields.pop().unwrap();
            let token = fields.pop().unwrap();
            assert(token@ == f[0]);
            assert(created_at@ == f[2]);
            assert(encrypted_secret@ == f[3]);
            Some(TrustSession { token, expires_at, created_at, encrypted_secret })
        },
    }
}

/// The trust session store's read: `content` is the record's text, or `None`
/// when it is absent or could not be read. A malformed or expired record
/// reads as no session at all.
pub fn read_trust_session(content: Option<&str>, now: i64) -> (r: Option<TrustSession>)
    ensures
        r is Some <==> (content matches Some(c) && record_valid_at(c@, now)),
        content matches Some(c) && session_fields(c@).len() != SESSION_FIELD_COUNT ==> r is None,
        r matches Some(t) ==> now < t.expires_at,
        r matches Some(t) ==> (content matches Some(c) && session_matches(t, c@)),
{
    match content {
        None => None,
        Some(c) => {
            match parse_trust_session(c) {
                None => None,
                Some(t) => {
                    if t.is_valid_at(now) {
                        Some(t)
                    } else {
                        None
                    }
                },
            }
        },
    }
}

/// Whether a silent restart is currently permitted.
pub fn check_trust_session(content: Option<&str>, now: i64) -> (r: bool)
    ensures
        r == (content matches Some(c) && record_valid_at(c@, now)),
{
    read_trust_session(content, now).is_some()
}

} // verus!
