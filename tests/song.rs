use server::error::Code;
use server::mask::FieldMask;
use server::song::{
    apply_song_update_mask, empty_to_none, prepare_create_song, prepare_update_song,
    resolve_song_update, row_to_song, rows_to_songs, Song, SongRow,
};

fn mask(paths: &[&str]) -> Option<FieldMask> {
    Some(FieldMask { paths: paths.iter().map(|p| p.to_string()).collect() })
}

#[test]
fn update_mask_updates_selected_fields() {
    let existing = SongRow {
        id: 1,
        title: "Old".to_string(),
        description: Some("Old desc".to_string()),
        link: Some("old".to_string()),
    };
    let incoming = Song {
        id: 1,
        title: "New".to_string(),
        description: "New desc".to_string(),
        link: "new".to_string(),
    };
    let updated = apply_song_update_mask(&existing, &incoming, mask(&["title", "link"])).expect("updated");
    assert_eq!(updated.title, "New");
    assert_eq!(updated.link, "new");
    assert_eq!(updated.description, "Old desc");
}

#[test]
fn row_to_song_defaults_missing_fields() {
    let row = SongRow { id: 2, title: "Title".to_string(), description: None, link: None };
    let song = row_to_song(row);
    assert_eq!(song.description, "");
    assert_eq!(song.link, "");
}

#[test]
fn only_empty_text_is_stored_as_absent() {
    assert_eq!(empty_to_none(" \n ".to_string()), Some(" \n ".to_string()));
    assert_eq!(empty_to_none(String::new()), None);
    assert_eq!(empty_to_none(" x ".to_string()), Some(" x ".to_string()));
}

#[test]
fn create_checks_title_and_keeps_texts() {
    assert_eq!(prepare_create_song(None).unwrap_err().code, Code::InvalidArgument);
    assert_eq!(prepare_create_song(None).unwrap_err().message, "create_song requires song payload");
    let blank = Song { id: 0, title: "".to_string(), description: String::new(), link: String::new() };
    let err = prepare_create_song(Some(blank)).unwrap_err();
    assert_eq!(err.code, Code::InvalidArgument);
    assert_eq!(err.message, "song title is required");
    let song = Song {
        id: 0,
        title: "Intro".to_string(),
        description: "  ".to_string(),
        link: "https://example.org/intro".to_string(),
    };
    let values = prepare_create_song(Some(song)).expect("values");
    assert_eq!(values.title, "Intro");
    assert_eq!(values.description, Some("  ".to_string()));
    assert_eq!(values.link, Some("https://example.org/intro".to_string()));
}

#[test]
fn created_song_reads_back() {
    let song = Song {
        id: 0,
        title: "Intro".to_string(),
        description: "Opening number".to_string(),
        link: String::new(),
    };
    let values = prepare_create_song(Some(song)).expect("values");
    let read = row_to_song(SongRow {
        id: 4,
        title: values.title,
        description: values.description,
        link: values.link,
    });
    assert_eq!(read.id, 4);
    assert_eq!(read.title, "Intro");
    assert_eq!(read.description, "Opening number");
    assert_eq!(read.link, "");
}

#[test]
fn unmasked_song_update_replaces_every_field() {
    let existing = SongRow {
        id: 1,
        title: "Old".to_string(),
        description: Some("d".to_string()),
        link: Some("l".to_string()),
    };
    let incoming = Song {
        id: 1,
        title: "New".to_string(),
        description: String::new(),
        link: "nl".to_string(),
    };
    let values = resolve_song_update(&existing, &incoming, None).expect("values");
    assert_eq!(values.title, "New");
    assert_eq!(values.description, None);
    assert_eq!(values.link, Some("nl".to_string()));
}

#[test]
fn unknown_song_path_is_refused() {
    let existing = SongRow { id: 1, title: "Old".to_string(), description: None, link: None };
    let incoming = Song { id: 1, title: "New".to_string(), description: String::new(), link: String::new() };
    let err = apply_song_update_mask(&existing, &incoming, mask(&["title", "name"])).unwrap_err();
    assert_eq!(err.code, Code::InvalidArgument);
    let blanked = Song { id: 1, title: " ".to_string(), description: String::new(), link: String::new() };
    let err = resolve_song_update(&existing, &blanked, mask(&["title"])).unwrap_err();
    assert_eq!(err.code, Code::InvalidArgument);
}

#[test]
fn song_update_requires_an_id() {
    let no_id = Song { id: 0, title: "X".to_string(), description: String::new(), link: String::new() };
    assert_eq!(prepare_update_song(Some(no_id)).unwrap_err().code, Code::InvalidArgument);
    assert_eq!(prepare_update_song(None).unwrap_err().code, Code::InvalidArgument);
}

#[test]
fn song_rows_keep_their_order() {
    let rows = vec![
        SongRow { id: 3, title: "C".to_string(), description: None, link: Some("c".to_string()) },
        SongRow { id: 5, title: "E".to_string(), description: Some("e".to_string()), link: None },
    ];
    let songs = rows_to_songs(rows);
    assert_eq!(songs.len(), 2);
    assert_eq!(songs[0].link, "c");
    assert_eq!(songs[1].description, "e");
    assert_eq!(songs[1].link, "");
}

#[test]
fn whitespace_description_reads_back_unchanged() {
    let existing = SongRow { id: 6, title: "Old".to_string(), description: None, link: None };
    let incoming = Song {
        id: 6,
        title: "New".to_string(),
        description: " ".to_string(),
        link: "\t".to_string(),
    };
    let values = resolve_song_update(&existing, &incoming, None).expect("values");
    let read = row_to_song(SongRow {
        id: 6,
        title: values.title,
        description: values.description,
        link: values.link,
    });
    assert_eq!(read.description, " ");
    assert_eq!(read.link, "\t");
}
