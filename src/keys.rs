//! Resource names: a single positive id, or the `song:person:role` triple that
//! names a participation.

use vstd::prelude::*;
use vstd::string::StringExecFns;
use crate::error::{Code, ServiceError};
use crate::text::{blank, is_blank, parse_i64, parse_u64, signed_of, trim, trim_seq, unsigned_of};

verus! {

/// The id that `name` denotes: a positive integer once whitespace is trimmed.
pub open spec fn id_of(name: Seq<char>) -> Option<i64> {
    match signed_of(trim_seq(name)) {
        Some(v) => if v > 0 {
            Some(v)
        } else {
            None
        },
        None => None,
    }
}

/// Parses a single-id resource name.
pub fn parse_id(name: &str) -> (r: Result<i64, ServiceError>)
    ensures
        match r {
            Ok(v) => id_of(name@) == Some(v),
            Err(e) => id_of(name@) is None && e.code == Code::InvalidArgument && e.message@
                == "invalid id"@,
        },
{
    match parse_i64(trim(name)) {
        Some(id) => {
            if id <= 0 {
                Err(ServiceError::invalid_argument("invalid id"))
            } else {
                Ok(id)
            }
        },
        None => Err(ServiceError::invalid_argument("invalid id")),
    }
}

/// The key of a participation.
#[derive(Clone, Debug)]
pub struct ParticipationKey {
    pub song_id: u64,
    pub tg_id: u64,
    pub role_title: String,
}

/// The first index at or after `from` that holds a `:`, or the length of `s`.
pub open spec fn colon_from(s: Seq<char>, from: int) -> int
    decreases s.len() - from,
{
    if from >= s.len() || from < 0 {
        s.len() as int
    } else if s[from] == ':' {
        from
    } else {
        colon_from(s, from + 1)
    }
}

/// The three segments of `s` when split at its first two colons; the third keeps any later colon.
pub open spec fn key_segments(s: Seq<char>) -> Option<(Seq<char>, Seq<char>, Seq<char>)> {
    let i = colon_from(s, 0);
    let j = colon_from(s, i + 1);
    if i >= s.len() || j >= s.len() {
        None
    } else {
        Some((s.subrange(0, i), s.subrange(i + 1, j), s.subrange(j + 1, s.len() as int)))
    }
}

/// The song id, person id and role that a participation name denotes.
pub open spec fn participation_key_of(s: Seq<char>) -> Option<(u64, u64, Seq<char>)> {
    match key_segments(s) {
        Some(parts) => match (unsigned_of(trim_seq(parts.0)), unsigned_of(trim_seq(parts.1))) {
            (Some(song), Some(person)) => if song != 0 && person != 0 && !is_blank(parts.2) {
                Some((song, person, parts.2))
            } else {
                None
            },
            _ => None,
        },
        None => None,
    }
}

fn find_colon(s: &str, from: usize) -> (r: usize)
    requires
        from <= s@.len(),
    ensures
        r == colon_from(s@, from as int),
        from <= r <= s@.len(),
{
    let n = s.unicode_len();
    let mut k: usize = from;
    while k < n && s.get_char(k) != ':'
        invariant
            from <= k <= n,
            n == s@.len(),
            colon_from(s@, from as int) == colon_from(s@, k as int),
        decreases n - k,
    {
        k = k + 1;
    }
    k
}

/// Parses a participation name `song:person:role`.
pub fn parse_participation_name(name: &str) -> (r: Result<ParticipationKey, ServiceError>)
    ensures
        match r {
            Ok(key) => participation_key_of(name@) == Some((key.song_id, key.tg_id, key.role_title@)),
            Err(e) => participation_key_of(name@) is None && e.code == Code::InvalidArgument
                && e.message@ == "invalid participation name"@,
        },
{
    let n = name.unicode_len();
    let i = find_colon(name, 0);
    if i >= n {
        return Err(ServiceError::invalid_argument("invalid participation name"));
    }
    let j = find_colon(name, i + 1);
    if j >= n {
        return Err(ServiceError::invalid_argument("invalid participation name"));
    }
    let song_part = name.substring_char(0, i);
    let person_part = name.substring_char(i + 1, j);
    let role_part = name.substring_char(j + 1, n);
    let song_id = match parse_u64(trim(song_part)) {
        Some(v) => v,
        None => return Err(ServiceError::invalid_argument("invalid participation name")),
    };
    let tg_id = match parse_u64(trim(person_part)) {
        Some(v) => v,
        None => return Err(ServiceError::invalid_argument("invalid participation name")),
    };
    if song_id == 0 || tg_id == 0 || blank(role_part) {
        return Err(ServiceError::invalid_argument("invalid participation name"));
    }
    Ok(ParticipationKey { song_id, tg_id, role_title: String::from_str(role_part) })
}

} // verus!
