//! Participations: which person plays which role on which song. The triple is the key;
//! no surrogate id exists.

use vstd::prelude::*;
use crate::error::{Code, ServiceError};
use crate::mask::{all_paths_known, into_paths, mask_accepted, mask_paths, names_field, str_views, FieldMask};
use crate::text::{blank, is_blank};

verus! {

/// A participation as callers see it.
#[derive(Clone, Debug)]
pub struct Participation {
    pub tg_id: u64,
    pub song_id: u64,
    pub role_title: String,
}

/// A participation as the store holds it.
#[derive(Clone, Debug)]
pub struct ParticipationRow {
    pub song_id: i32,
    pub person_id: i64,
    pub role: String,
}

pub ghost struct ParticipationView {
    pub tg_id: u64,
    pub song_id: u64,
    pub role_title: Seq<char>,
}

impl View for Participation {
    type V = ParticipationView;

    open spec fn view(&self) -> ParticipationView {
        ParticipationView { tg_id: self.tg_id, song_id: self.song_id, role_title: self.role_title@ }
    }
}

/// A participation that names a person, a song and a role.
pub open spec fn participation_valid(p: ParticipationView) -> bool {
    p.tg_id != 0 && p.song_id != 0 && !is_blank(p.role_title)
}

/// The message that names the first missing field of a participation.
pub open spec fn validation_message(p: ParticipationView) -> Seq<char> {
    if p.tg_id == 0 {
        "tg_id is required"@
    } else if p.song_id == 0 {
        "song_id is required"@
    } else {
        "role_title is required"@
    }
}

/// The message that refuses a mask: a key field, or a path that names no field.
pub open spec fn mask_message(mask: Option<FieldMask>) -> Seq<char> {
    if mask_paths(mask).contains("tg_id"@) || mask_paths(mask).contains("song_id"@) {
        "updating tg_id or song_id is not supported"@
    } else {
        "unsupported update_mask path"@
    }
}

/// Checks that a participation names a person, a song and a role.
pub fn validate_participation(participation: &Participation) -> (r: Result<(), ServiceError>)
    ensures
        match r {
            Ok(_) => participation_valid(participation@),
            Err(e) => !participation_valid(participation@) && e.code == Code::InvalidArgument
                && e.message@ == validation_message(participation@),
        },
{
    if participation.tg_id == 0 {
        return Err(ServiceError::invalid_argument("tg_id is required"));
    }
    if participation.song_id == 0 {
        return Err(ServiceError::invalid_argument("song_id is required"));
    }
    if blank(participation.role_title.as_str()) {
        return Err(ServiceError::invalid_argument("role_title is required"));
    }
    Ok(())
}

pub open spec fn participation_of_row(song_id: i32, person_id: i64, role: Seq<char>) -> ParticipationView {
    ParticipationView { tg_id: person_id as u64, song_id: song_id as u64, role_title: role }
}

/// A stored row as callers see it.
pub fn row_to_participation(row: ParticipationRow) -> (r: Participation)
    ensures
        r@ == participation_of_row(row.song_id, row.person_id, row.role@),
{
    Participation { tg_id: row.person_id as u64, song_id: row.song_id as u64, role_title: row.role }
}

/// Every stored row as callers see it, in the same order.
pub fn rows_to_participations(rows: Vec<ParticipationRow>) -> (r: Vec<Participation>)
    ensures
        r@.len() == rows@.len(),
        forall|i: int|
            0 <= i < rows@.len() ==> #[trigger] r@[i]@ == participation_of_row(
                rows@[i].song_id,
                rows@[i].person_id,
                rows@[i].role@,
            ),
{
    let mut out: Vec<Participation> = Vec::new();
    let mut i: usize = 0;
    while i < rows.len()
        invariant
            i <= rows@.len(),
            out@.len() == i,
            forall|k: int|
                0 <= k < i ==> #[trigger] out@[k]@ == participation_of_row(
                    rows@[k].song_id,
                    rows@[k].person_id,
                    rows@[k].role@,
                ),
        decreases rows@.len() - i,
    {
        let row = &rows[i];
        out.push(
            Participation {
                tg_id: row.person_id as u64,
                song_id: row.song_id as u64,
                role_title: row.role.clone(),
            },
        );
        i = i + 1;
    }
    out
}

/// The one field of a participation that an update mask may name.
pub open spec fn participation_fields() -> Seq<Seq<char>> {
    seq!["role_title"@]
}

/// Checks an update's mask against a participation. The role is a part of the key, so the
/// participation comes back as it was given; a mask naming a key field or an unknown one is
/// refused.
pub fn apply_participation_update_mask(
    participation: &Participation,
    mask: Option<FieldMask>,
) -> (r: Result<Participation, ServiceError>)
    ensures
        match r {
            Ok(p) => mask_accepted(mask, participation_fields()) && p@ == participation@,
            Err(e) => !mask_accepted(mask, participation_fields()) && e.code == Code::InvalidArgument
                && e.message@ == mask_message(mask),
        },
{
    let paths = into_paths(mask);
    let updated = Participation {
        tg_id: participation.tg_id,
        song_id: participation.song_id,
        role_title: participation.role_title.clone(),
    };
    if paths.len() == 0 {
        return Ok(updated);
    }
    let mut fields: Vec<&str> = Vec::new();
    fields.push("role_title");
    assert(str_views(fields@) =~= participation_fields());
    if all_paths_known(&paths, &fields) {
        Ok(updated)
    } else if names_field(&paths, "tg_id") || names_field(&paths, "song_id") {
        Err(ServiceError::invalid_argument("updating tg_id or song_id is not supported"))
    } else {
        Err(ServiceError::invalid_argument("unsupported update_mask path"))
    }
}

/// The values that a create inserts.
#[derive(Clone, Debug)]
pub struct ParticipationValues {
    pub song_id: i64,
    pub person_id: i64,
    pub role: String,
}

/// Checks a create request's payload and gives the values to insert.
pub fn prepare_create_participation(payload: Option<Participation>) -> (r: Result<
    ParticipationValues,
    ServiceError,
>)
    ensures
        match r {
            Ok(v) => payload matches Some(p) && participation_valid(p@) && v.song_id == p.song_id as i64
                && v.person_id == p.tg_id as i64 && v.role@ == p.role_title@,
            Err(e) => (payload is None || !participation_valid(payload->Some_0@)) && e.code
                == Code::InvalidArgument && e.message@ == match payload {
                None => "participation payload is required"@,
                Some(p) => validation_message(p@),
            },
        },
{
    let p = match payload {
        Some(p) => p,
        None => return Err(ServiceError::invalid_argument("participation payload is required")),
    };
    match validate_participation(&p) {
        Ok(_) => {},
        Err(e) => return Err(e),
    }
    Ok(ParticipationValues {
        song_id: p.song_id as i64,
        person_id: p.tg_id as i64,
        role: p.role_title,
    })
}

/// The statement that an update runs: the row matching the key gets `new_role`.
#[derive(Clone, Debug)]
pub struct ParticipationChange {
    pub new_role: String,
    pub song_id: i64,
    pub person_id: i64,
    pub role: String,
}

/// Checks an update request and gives the statement to run: the payload must be present and
/// valid, and its mask accepted.
pub fn prepare_update_participation(payload: Option<Participation>, mask: Option<FieldMask>) -> (r: Result<
    ParticipationChange,
    ServiceError,
>)
    ensures
        match r {
            Ok(c) => payload matches Some(p) && participation_valid(p@) && mask_accepted(
                mask,
                participation_fields(),
            ) && c.new_role@ == p.role_title@ && c.song_id == p.song_id as i64 && c.person_id
                == p.tg_id as i64 && c.role@ == p.role_title@,
            Err(e) => (payload is None || !participation_valid(payload->Some_0@) || !mask_accepted(
                mask,
                participation_fields(),
            )) && e.code == Code::InvalidArgument && e.message@ == match payload {
                None => "participation payload is required"@,
                Some(p) => if !participation_valid(p@) {
                    validation_message(p@)
                } else {
                    mask_message(mask)
                },
            },
        },
{
    let p = match payload {
        Some(p) => p,
        None => return Err(ServiceError::invalid_argument("participation payload is required")),
    };
    match validate_participation(&p) {
        Ok(_) => {},
        Err(e) => return Err(e),
    }
    let updated = match apply_participation_update_mask(&p, mask) {
        Ok(u) => u,
        Err(e) => return Err(e),
    };
    Ok(ParticipationChange {
        new_role: updated.role_title,
        song_id: p.song_id as i64,
        person_id: p.tg_id as i64,
        role: p.role_title,
    })
}

/// Creating a valid participation and reading back the row that the store returns for it gives
/// the payload again, where its ids fit the store's columns.
pub proof fn lemma_created_participation_reads_back(payload: ParticipationView)
    requires
        participation_valid(payload),
        payload.song_id <= i32::MAX,
        payload.tg_id <= i64::MAX,
    ensures
        participation_of_row(payload.song_id as i32, payload.tg_id as i64, payload.role_title)
            == payload,
{
}

} // verus!
