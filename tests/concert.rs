use chrono::{Datelike, NaiveDate};
use server::concert::{
    apply_concert_update_mask, date_from_timestamp, prepare_create_concert, prepare_update_concert,
    resolve_concert_update, row_to_concert, rows_to_concerts, timestamp_from_date, CalendarDay,
    Concert, ConcertRow, Timestamp, MAX_DAY, MIN_DAY,
};
use server::error::Code;
use server::mask::FieldMask;

fn day(y: i32, m: u32, d: u32) -> CalendarDay {
    let date = NaiveDate::from_ymd_opt(y, m, d).expect("date");
    CalendarDay { days_from_ce: date.num_days_from_ce() }
}

fn mask(paths: &[&str]) -> Option<FieldMask> {
    Some(FieldMask { paths: paths.iter().map(|p| p.to_string()).collect() })
}

#[test]
fn date_roundtrip_works() {
    let date = day(2025, 1, 2);
    let timestamp = timestamp_from_date(date);
    let parsed = date_from_timestamp(Some(timestamp)).expect("parsed");
    assert_eq!(parsed, date);
}

#[test]
fn update_mask_keeps_existing_fields() {
    let existing = ConcertRow { id: 5, name: "Old".to_string(), date: Some(day(2024, 5, 1)) };
    let incoming = Concert {
        id: 5,
        name: "New".to_string(),
        date: Some(Timestamp { seconds: 0, nanos: 0 }),
    };
    let updated = apply_concert_update_mask(&existing, &incoming, mask(&["name"])).expect("update");
    assert_eq!(updated.name, "New");
    assert_eq!(updated.date, row_to_concert(existing).date);
}

#[test]
fn epoch_day_is_midnight_zero() {
    let ts = timestamp_from_date(day(1970, 1, 1));
    assert_eq!(ts, Timestamp { seconds: 0, nanos: 0 });
    let ts = timestamp_from_date(day(1970, 1, 3));
    assert_eq!(ts.seconds, 172800);
}

#[test]
fn instants_map_to_the_day_that_holds_them() {
    let noon = Timestamp { seconds: 3 * 86400 + 43200, nanos: 5 };
    assert_eq!(date_from_timestamp(Some(noon)), Some(day(1970, 1, 4)));
    let before_epoch = Timestamp { seconds: -1, nanos: 0 };
    assert_eq!(date_from_timestamp(Some(before_epoch)), Some(day(1969, 12, 31)));
    assert_eq!(date_from_timestamp(Some(Timestamp { seconds: 0, nanos: -1 })), None);
    assert_eq!(date_from_timestamp(None), None);
    assert_eq!(date_from_timestamp(Some(Timestamp { seconds: i64::MAX, nanos: 0 })), None);
}

#[test]
fn unmasked_update_replaces_every_field() {
    let existing = ConcertRow { id: 7, name: "Old".to_string(), date: Some(day(2024, 5, 1)) };
    let incoming = Concert { id: 7, name: "New".to_string(), date: None };
    let updated = apply_concert_update_mask(&existing, &incoming, None).expect("update");
    assert_eq!(updated.id, 7);
    assert_eq!(updated.name, "New");
    assert_eq!(updated.date, None);
    let empty = apply_concert_update_mask(&existing, &incoming, mask(&[])).expect("update");
    assert_eq!(empty.name, "New");
    assert_eq!(empty.date, None);
}

#[test]
fn date_mask_keeps_the_name() {
    let existing = ConcertRow { id: 7, name: "Old".to_string(), date: None };
    let when = timestamp_from_date(day(2024, 6, 1));
    let incoming = Concert { id: 7, name: "New".to_string(), date: Some(when) };
    let updated = apply_concert_update_mask(&existing, &incoming, mask(&["date"])).expect("update");
    assert_eq!(updated.name, "Old");
    assert_eq!(updated.date, Some(when));
}

#[test]
fn unknown_mask_path_is_refused() {
    let existing = ConcertRow { id: 7, name: "Old".to_string(), date: None };
    let incoming = Concert { id: 7, name: "New".to_string(), date: None };
    let err = apply_concert_update_mask(&existing, &incoming, mask(&["name", "venue"])).unwrap_err();
    assert_eq!(err.code, Code::InvalidArgument);
    let err = resolve_concert_update(&existing, &incoming, mask(&["id"])).unwrap_err();
    assert_eq!(err.code, Code::InvalidArgument);
}

#[test]
fn update_that_blanks_the_name_is_refused() {
    let existing = ConcertRow { id: 7, name: "Old".to_string(), date: None };
    let incoming = Concert { id: 7, name: "  ".to_string(), date: None };
    let err = resolve_concert_update(&existing, &incoming, None).unwrap_err();
    assert_eq!(err.code, Code::InvalidArgument);
    let kept = resolve_concert_update(&existing, &incoming, mask(&["date"])).expect("values");
    assert_eq!(kept.name, "Old");
}

#[test]
fn create_checks_payload_and_name() {
    assert_eq!(prepare_create_concert(None).unwrap_err().code, Code::InvalidArgument);
    let blank = Concert { id: 0, name: " \t".to_string(), date: None };
    assert_eq!(prepare_create_concert(Some(blank)).unwrap_err().code, Code::InvalidArgument);
    let ok = Concert {
        id: 0,
        name: "Spring gig".to_string(),
        date: Some(timestamp_from_date(day(2025, 3, 9))),
    };
    let values = prepare_create_concert(Some(ok)).expect("values");
    assert_eq!(values.name, "Spring gig");
    assert_eq!(values.date, Some(day(2025, 3, 9)));
}

#[test]
fn created_concert_reads_back() {
    let when = timestamp_from_date(day(2025, 3, 9));
    let payload = Concert { id: 0, name: "Spring gig".to_string(), date: Some(when) };
    let values = prepare_create_concert(Some(payload)).expect("values");
    let row = ConcertRow { id: 12, name: values.name, date: values.date };
    let read = row_to_concert(row);
    assert_eq!(read.id, 12);
    assert_eq!(read.name, "Spring gig");
    assert_eq!(read.date, Some(when));
}

#[test]
fn update_requires_an_id() {
    assert_eq!(prepare_update_concert(None).unwrap_err().code, Code::InvalidArgument);
    let no_id = Concert { id: 0, name: "X".to_string(), date: None };
    assert_eq!(prepare_update_concert(Some(no_id)).unwrap_err().code, Code::InvalidArgument);
    let with_id = Concert { id: 3, name: "X".to_string(), date: None };
    assert_eq!(prepare_update_concert(Some(with_id)).expect("payload").id, 3);
}

#[test]
fn rows_keep_their_order() {
    let rows = vec![
        ConcertRow { id: 1, name: "A".to_string(), date: None },
        ConcertRow { id: 2, name: "B".to_string(), date: Some(day(1970, 1, 2)) },
    ];
    let concerts = rows_to_concerts(rows);
    assert_eq!(concerts.len(), 2);
    assert_eq!(concerts[0].name, "A");
    assert_eq!(concerts[1].id, 2);
    assert_eq!(concerts[1].date, Some(Timestamp { seconds: 86400, nanos: 0 }));
}

#[test]
fn day_range_is_chronos() {
    assert_eq!(NaiveDate::MIN.num_days_from_ce(), MIN_DAY);
    assert_eq!(NaiveDate::MAX.num_days_from_ce(), MAX_DAY);
    for d in [MIN_DAY, MAX_DAY, 1, 719163] {
        let day = CalendarDay { days_from_ce: d };
        assert_eq!(date_from_timestamp(Some(timestamp_from_date(day))), Some(day));
    }
    let below = timestamp_from_date(CalendarDay { days_from_ce: MIN_DAY - 1 });
    assert_eq!(date_from_timestamp(Some(below)), None);
    let above = timestamp_from_date(CalendarDay { days_from_ce: MAX_DAY + 1 });
    assert_eq!(date_from_timestamp(Some(above)), None);
}

#[test]
fn leap_second_fractions_follow_chrono() {
    let late = Timestamp { seconds: 59, nanos: 1_500_000_000 };
    assert_eq!(date_from_timestamp(Some(late)), Some(day(1970, 1, 1)));
    let not_leap = Timestamp { seconds: 58, nanos: 1_500_000_000 };
    assert_eq!(date_from_timestamp(Some(not_leap)), None);
    let too_long = Timestamp { seconds: 59, nanos: 2_000_000_000 };
    assert_eq!(date_from_timestamp(Some(too_long)), None);
}

#[test]
fn errors_name_the_offending_field() {
    assert_eq!(
        prepare_create_concert(None).unwrap_err().message,
        "create_concert requires concert payload"
    );
    let blank = Concert { id: 0, name: " ".to_string(), date: None };
    assert_eq!(prepare_create_concert(Some(blank)).unwrap_err().message, "concert name is required");
    let no_id = Concert { id: 0, name: "X".to_string(), date: None };
    assert_eq!(prepare_update_concert(Some(no_id)).unwrap_err().message, "concert id is required");
    let existing = ConcertRow { id: 7, name: "Old".to_string(), date: None };
    let incoming = Concert { id: 7, name: "New".to_string(), date: None };
    let err = resolve_concert_update(&existing, &incoming, mask(&["venue"])).unwrap_err();
    assert_eq!(err.message, "unsupported update_mask path");
}
