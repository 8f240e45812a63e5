//! Scheduled events ("concerts"): a store-assigned id, a name and an optional date.

use vstd::prelude::*;
use crate::error::{Code, ServiceError};
use crate::mask::{all_paths_known, into_paths, mask_accepted, mask_paths, names_field, str_views, writes, FieldMask};
use crate::text::{blank, is_blank};

verus! {

/// An instant: seconds since 1970-01-01 UTC and a fraction of a second.
#[derive(Clone, Copy, Debug, PartialEq, Eq, Structural)]
pub struct Timestamp {
    pub seconds: i64,
    pub nanos: i32,
}

/// A calendar day, numbered as chrono's `Datelike::num_days_from_ce` numbers it:
/// 0001-01-01 is day 1.
#[derive(Clone, Copy, Debug, PartialEq, Eq, Structural)]
pub struct CalendarDay {
    pub days_from_ce: i32,
}

/// The day number of 1970-01-01.
pub const UNIX_EPOCH_DAY: i32 = 719163;

pub const SECONDS_PER_DAY: i64 = 86400;

/// A concert as callers see it.
#[derive(Clone, Debug)]
pub struct Concert {
    pub id: u64,
    pub name: String,
    pub date: Option<Timestamp>,
}

/// A concert as the store holds it.
#[derive(Clone, Debug)]
pub struct ConcertRow {
    pub id: i32,
    pub name: String,
    pub date: Option<CalendarDay>,
}

/// The values that a create or an update writes to the store.
#[derive(Clone, Debug)]
pub struct ConcertValues {
    pub name: String,
    pub date: Option<CalendarDay>,
}

pub ghost struct ConcertView {
    pub id: u64,
    pub name: Seq<char>,
    pub date: Option<Timestamp>,
}

impl View for Concert {
    type V = ConcertView;

    open spec fn view(&self) -> ConcertView {
        ConcertView { id: self.id, name: self.name@, date: self.date }
    }
}

/// The number of the first day chrono's `NaiveDate` holds (`NaiveDate::MIN`, -262143-01-01).
pub const MIN_DAY: i32 = -95746129;

/// The number of the last day chrono's `NaiveDate` holds (`NaiveDate::MAX`, +262142-12-31).
pub const MAX_DAY: i32 = 95745399;

/// A day that chrono's `NaiveDate` can hold; every day the store hands back is one.
pub open spec fn day_valid(day: CalendarDay) -> bool {
    MIN_DAY <= day.days_from_ce <= MAX_DAY
}

/// Whether chrono's `DateTime::<Utc>::from_timestamp` accepts an instant: its day lies within
/// `NaiveDate`'s range, and the fraction is under a second, or under two within the last second
/// of a minute (a leap second).
pub open spec fn chrono_accepts(seconds: i64, nanos: u32) -> bool {
    MIN_DAY <= day_number(seconds) <= MAX_DAY && (nanos < 1_000_000_000 || (nanos < 2_000_000_000
        && (seconds as int % SECONDS_PER_DAY as int) % 60 == 59))
}

/// Relies on chrono's `DateTime::<Utc>::from_timestamp` and `date_naive`: the UTC calendar day of
/// the instant, numbered by `Datelike::num_days_from_ce`, or none where chrono refuses the instant.
#[verifier::external_body]
fn day_of_instant(seconds: i64, nanos: u32) -> (r: Option<i32>)
    ensures
        r is Some == chrono_accepts(seconds, nanos),
        r matches Some(d) ==> d as int == day_number(seconds),
{
    match chrono::DateTime::<chrono::Utc>::from_timestamp(seconds, nanos) {
        Some(t) => Some(chrono::Datelike::num_days_from_ce(&t.date_naive())),
        None => None,
    }
}

/// The number of the day that holds the instant `seconds` after 1970-01-01 UTC.
pub open spec fn day_number(seconds: i64) -> int {
    seconds as int / SECONDS_PER_DAY as int + UNIX_EPOCH_DAY as int
}

/// The midnight (UTC) that starts a day.
pub open spec fn midnight_of(day: CalendarDay) -> Timestamp {
    Timestamp {
        seconds: ((day.days_from_ce as int - UNIX_EPOCH_DAY as int) * SECONDS_PER_DAY as int) as i64,
        nanos: 0,
    }
}

/// The day an optional instant falls on; none for a negative fraction of a second or an instant
/// that chrono refuses.
pub open spec fn day_of(timestamp: Option<Timestamp>) -> Option<CalendarDay> {
    match timestamp {
        Some(t) => if t.nanos < 0 {
            None
        } else {
            if chrono_accepts(t.seconds, t.nanos as u32) {
                Some(CalendarDay { days_from_ce: day_number(t.seconds) as i32 })
            } else {
                None
            }
        },
        None => None,
    }
}

pub open spec fn stamp_of(date: Option<CalendarDay>) -> Option<Timestamp> {
    match date {
        Some(d) => Some(midnight_of(d)),
        None => None,
    }
}

/// The instant at which a day starts.
pub fn timestamp_from_date(date: CalendarDay) -> (r: Timestamp)
    ensures
        r == midnight_of(date),
{
    let days = date.days_from_ce as i64 - UNIX_EPOCH_DAY as i64;
    Timestamp { seconds: days * SECONDS_PER_DAY, nanos: 0 }
}

/// The day on which an optional instant falls.
pub fn date_from_timestamp(timestamp: Option<Timestamp>) -> (r: Option<CalendarDay>)
    ensures
        r == day_of(timestamp),
{
    match timestamp {
        Some(t) => {
            if t.nanos < 0 {
                None
            } else {
                match day_of_instant(t.seconds, t.nanos as u32) {
                    Some(d) => Some(CalendarDay { days_from_ce: d }),
                    None => None,
                }
            }
        },
        None => None,
    }
}

pub open spec fn concert_of_row(id: i32, name: Seq<char>, date: Option<CalendarDay>) -> ConcertView {
    ConcertView { id: id as u64, name: name, date: stamp_of(date) }
}

/// A stored row as callers see it.
pub fn row_to_concert(row: ConcertRow) -> (r: Concert)
    ensures
        r@ == concert_of_row(row.id, row.name@, row.date),
{
    let date = match row.date {
        Some(d) => Some(timestamp_from_date(d)),
        None => None,
    };
    Concert { id: row.id as u64, name: row.name, date }
}

/// Every stored row as callers see it, in the same order.
pub fn rows_to_concerts(rows: Vec<ConcertRow>) -> (r: Vec<Concert>)
    ensures
        r@.len() == rows@.len(),
        forall|i: int|
            0 <= i < rows@.len() ==> #[trigger] r@[i]@ == concert_of_row(
                rows@[i].id,
                rows@[i].name@,
                rows@[i].date,
            ),
{
    let mut out: Vec<Concert> = Vec::new();
    let mut i: usize = 0;
    while i < rows.len()
        invariant
            i <= rows@.len(),
            out@.len() == i,
            forall|k: int|
                0 <= k < i ==> #[trigger] out@[k]@ == concert_of_row(
                    rows@[k].id,
                    rows@[k].name@,
                    rows@[k].date,
                ),
        decreases rows@.len() - i,
    {
        let row = &rows[i];
        let date = match row.date {
            Some(d) => Some(timestamp_from_date(d)),
            None => None,
        };
        out.push(Concert { id: row.id as u64, name: row.name.clone(), date });
        i = i + 1;
    }
    out
}

/// The fields of a concert that an update mask may name.
pub open spec fn concert_fields() -> Seq<Seq<char>> {
    seq!["name"@, "date"@]
}

/// The concert that an update makes of the stored one.
pub open spec fn merged_concert(
    existing_id: i32,
    existing_name: Seq<char>,
    existing_date: Option<CalendarDay>,
    incoming: ConcertView,
    mask: Option<FieldMask>,
) -> ConcertView {
    ConcertView {
        id: existing_id as u64,
        name: if writes(mask, "name"@) {
            incoming.name
        } else {
            existing_name
        },
        date: if writes(mask, "date"@) {
            incoming.date
        } else {
            stamp_of(existing_date)
        },
    }
}

/// Merges an update into the stored concert: the fields that the mask names, or all of them
/// when it names none, come from `incoming`; a mask that names an unknown field is refused.
pub fn apply_concert_update_mask(
    existing: &ConcertRow,
    incoming: &Concert,
    mask: Option<FieldMask>,
) -> (r: Result<Concert, ServiceError>)
    ensures
        match r {
            Ok(c) => mask_accepted(mask, concert_fields()) && c@ == merged_concert(
                existing.id,
                existing.name@,
                existing.date,
                incoming@,
                mask,
            ),
            Err(e) => !mask_accepted(mask, concert_fields()) && e.code == Code::InvalidArgument
                && e.message@ == "unsupported update_mask path"@,
        },
{
    let paths = into_paths(mask);
    let mut fields: Vec<&str> = Vec::new();
    fields.push("name");
    fields.push("date");
    assert(str_views(fields@) =~= concert_fields());
    if paths.len() > 0 && !all_paths_known(&paths, &fields) {
        return Err(ServiceError::invalid_argument("unsupported update_mask path"));
    }
    let all = paths.len() == 0;
    let name = if all || names_field(&paths, "name") {
        incoming.name.clone()
    } else {
        existing.name.clone()
    };
    let date = if all || names_field(&paths, "date") {
        incoming.date
    } else {
        match existing.date {
            Some(d) => Some(timestamp_from_date(d)),
            None => None,
        }
    };
    Ok(Concert { id: existing.id as u64, name, date })
}

/// What a create writes for a payload: its name and the day of its date, or the code of the
/// error that refuses it.
pub open spec fn new_concert_of(payload: Option<ConcertView>) -> Result<(Seq<char>, Option<CalendarDay>), Code> {
    match payload {
        None => Err(Code::InvalidArgument),
        Some(c) => if is_blank(c.name) {
            Err(Code::InvalidArgument)
        } else {
            Ok((c.name, day_of(c.date)))
        },
    }
}

pub open spec fn payload_view(payload: Option<Concert>) -> Option<ConcertView> {
    match payload {
        Some(c) => Some(c@),
        None => None,
    }
}

/// Checks a create request's payload and gives the values to insert.
pub fn prepare_create_concert(payload: Option<Concert>) -> (r: Result<ConcertValues, ServiceError>)
    ensures
        match r {
            Ok(v) => new_concert_of(payload_view(payload)) == Ok::<_, Code>((v.name@, v.date)),
            Err(e) => new_concert_of(payload_view(payload)) == Err::<(Seq<char>, Option<CalendarDay>), Code>(e.code)
                && e.message@ == if payload is None {
                "create_concert requires concert payload"@
            } else {
                "concert name is required"@
            },
        },
{
    let concert = match payload {
        Some(c) => c,
        None => return Err(ServiceError::invalid_argument("create_concert requires concert payload")),
    };
    if blank(concert.name.as_str()) {
        return Err(ServiceError::invalid_argument("concert name is required"));
    }
    let date = date_from_timestamp(concert.date);
    Ok(ConcertValues { name: concert.name, date })
}

/// Checks an update request's payload: it must be present and name a concert by a non-zero id.
pub fn prepare_update_concert(payload: Option<Concert>) -> (r: Result<Concert, ServiceError>)
    ensures
        match r {
            Ok(c) => payload == Some(c) && c.id != 0,
            Err(e) => (payload is None || payload->Some_0.id == 0) && e.code == Code::InvalidArgument
                && e.message@ == if payload is None {
                "update_concert requires concert payload"@
            } else {
                "concert id is required"@
            },
        },
{
    let concert = match payload {
        Some(c) => c,
        None => return Err(ServiceError::invalid_argument("update_concert requires concert payload")),
    };
    if concert.id == 0 {
        return Err(ServiceError::invalid_argument("concert id is required"));
    }
    Ok(concert)
}

/// What an update writes over the stored concert, or the code of the error that refuses it:
/// the merge of the mask, which must leave a name.
pub open spec fn concert_update_of(
    existing_id: i32,
    existing_name: Seq<char>,
    existing_date: Option<CalendarDay>,
    incoming: ConcertView,
    mask: Option<FieldMask>,
) -> Result<(Seq<char>, Option<CalendarDay>), Code> {
    if !mask_accepted(mask, concert_fields()) {
        Err(Code::InvalidArgument)
    } else {
        let m = merged_concert(existing_id, existing_name, existing_date, incoming, mask);
        if is_blank(m.name) {
            Err(Code::InvalidArgument)
        } else {
            Ok((m.name, day_of(m.date)))
        }
    }
}

/// Merges an update into the stored concert and checks the result; gives the values to write.
pub fn resolve_concert_update(
    existing: &ConcertRow,
    incoming: &Concert,
    mask: Option<FieldMask>,
) -> (r: Result<ConcertValues, ServiceError>)
    ensures
        match r {
            Ok(v) => concert_update_of(existing.id, existing.name@, existing.date, incoming@, mask)
                == Ok::<_, Code>((v.name@, v.date)),
            Err(e) => concert_update_of(existing.id, existing.name@, existing.date, incoming@, mask)
                == Err::<(Seq<char>, Option<CalendarDay>), Code>(e.code) && e.message@ == if mask_accepted(
                mask,
                concert_fields(),
            ) {
                "concert name is required"@
            } else {
                "unsupported update_mask path"@
            },
        },
{
    let updated = match apply_concert_update_mask(existing, incoming, mask) {
        Ok(c) => c,
        Err(e) => return Err(e),
    };
    if blank(updated.name.as_str()) {
        return Err(ServiceError::invalid_argument("concert name is required"));
    }
    let date = date_from_timestamp(updated.date);
    Ok(ConcertValues { name: updated.name, date })
}

/// Creating a concert from a valid payload and reading back the row that the store returns for
/// it gives the store's id with the payload's name and date. The date must be a midnight (UTC)
/// of a day that chrono can hold; another instant is stored as the day that holds it.
pub proof fn lemma_created_concert_reads_back(payload: ConcertView, id: i32)
    requires
        !is_blank(payload.name),
        payload.date matches Some(t) ==> t.nanos == 0 && t.seconds % 86400 == 0 && MIN_DAY
            <= day_number(t.seconds) <= MAX_DAY,
    ensures
        new_concert_of(Some(payload)) matches Ok(v) && concert_of_row(id, v.0, v.1) == (
        ConcertView { id: id as u64, name: payload.name, date: payload.date }),
{
    if let Some(t) = payload.date {
        let q = t.seconds as int / 86400;
        vstd::arithmetic::div_mod::lemma_fundamental_div_mod(t.seconds as int, 86400);
        assert(q * 86400 == t.seconds as int);
        let d = day_of(payload.date)->Some_0;
        assert(d.days_from_ce as int == q + 719163);
        assert(midnight_of(d) == t);
    }
}

/// A day that chrono can hold survives the trip to its midnight and back.
pub proof fn lemma_date_round_trip(day: CalendarDay)
    requires
        day_valid(day),
    ensures
        day_of(Some(midnight_of(day))) == Some(day),
{
    let k = day.days_from_ce as int - UNIX_EPOCH_DAY as int;
    assert(-200_000_000 < k < 200_000_000);
    assert(-200_000_000 * 86400 < k * 86400 < 200_000_000 * 86400) by (nonlinear_arith)
        requires
            -200_000_000 < k < 200_000_000,
    ;
    vstd::arithmetic::div_mod::lemma_div_multiples_vanish(k, 86400);
    assert(86400 * k == k * 86400) by (nonlinear_arith);
    assert(midnight_of(day).seconds as int == k * 86400);
    assert(day_number(midnight_of(day).seconds) == k + 719163);
}

/// An update whose mask lists no path replaces every mutable field with the proposed value.
pub proof fn lemma_unmasked_update_replaces(
    existing_id: i32,
    existing_name: Seq<char>,
    existing_date: Option<CalendarDay>,
    incoming: ConcertView,
    mask: Option<FieldMask>,
)
    requires
        mask_paths(mask).len() == 0,
    ensures
        mask_accepted(mask, concert_fields()),
        merged_concert(existing_id, existing_name, existing_date, incoming, mask).name == incoming.name,
        merged_concert(existing_id, existing_name, existing_date, incoming, mask).date == incoming.date,
        !is_blank(incoming.name) ==> concert_update_of(
            existing_id,
            existing_name,
            existing_date,
            incoming,
            mask,
        ) == Ok::<_, Code>((incoming.name, day_of(incoming.date))),
{
}

/// An update whose mask is `name` alone changes the name and writes the stored date back as it
/// was.
pub proof fn lemma_name_mask_keeps_date(
    existing_id: i32,
    existing_name: Seq<char>,
    existing_date: Option<CalendarDay>,
    incoming: ConcertView,
    mask: Option<FieldMask>,
)
    requires
        mask_paths(mask) == seq!["name"@],
        existing_date matches Some(d) ==> day_valid(d),
    ensures
        !is_blank(incoming.name) ==> concert_update_of(
            existing_id,
            existing_name,
            existing_date,
            incoming,
            mask,
        ) == Ok::<_, Code>((incoming.name, existing_date)),
        mask_accepted(mask, concert_fields()),
        merged_concert(existing_id, existing_name, existing_date, incoming, mask) == (ConcertView {
            id: existing_id as u64,
            name: incoming.name,
            date: stamp_of(existing_date),
        }),
{
    reveal_strlit("name");
    reveal_strlit("date");
    assert(concert_fields()[0] == "name"@);
    assert(mask_paths(mask).contains("name"@)) by {
        assert(mask_paths(mask)[0] == "name"@);
    }
    assert(!mask_paths(mask).contains("date"@)) by {
        assert("name"@[0] != "date"@[0]);
    }
    if let Some(d) = existing_date {
        lemma_date_round_trip(d);
    }
}

/// An update whose mask names a path that is not a concert field is refused with
/// `InvalidArgument`, whatever the stored concert and the proposal are, so nothing is written.
pub proof fn lemma_unknown_path_rejected(
    existing_id: i32,
    existing_name: Seq<char>,
    existing_date: Option<CalendarDay>,
    incoming: ConcertView,
    mask: Option<FieldMask>,
    i: int,
)
    requires
        0 <= i < mask_paths(mask).len(),
        !concert_fields().contains(mask_paths(mask)[i]),
    ensures
        concert_update_of(existing_id, existing_name, existing_date, incoming, mask) == Err::<
            (Seq<char>, Option<CalendarDay>),
            Code,
        >(Code::InvalidArgument),
{
}

} // verus!
