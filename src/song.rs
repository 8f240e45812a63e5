//! Media items ("songs"): a store-assigned id, a title, and an optional description and link.

use vstd::prelude::*;
use crate::error::{Code, ServiceError};
use crate::mask::{all_paths_known, into_paths, mask_accepted, mask_paths, names_field, str_views, writes, FieldMask};
use crate::text::{blank, is_blank};

verus! {

/// A song as callers see it; an absent description or link reads as empty.
#[derive(Clone, Debug)]
pub struct Song {
    pub id: u64,
    pub title: String,
    pub description: String,
    pub link: String,
}

/// A song as the store holds it.
#[derive(Clone, Debug)]
pub struct SongRow {
    pub id: i32,
    pub title: String,
    pub description: Option<String>,
    pub link: Option<String>,
}

/// The values that a create or an update writes to the store.
#[derive(Clone, Debug)]
pub struct SongValues {
    pub title: String,
    pub description: Option<String>,
    pub link: Option<String>,
}

pub ghost struct SongView {
    pub id: u64,
    pub title: Seq<char>,
    pub description: Seq<char>,
    pub link: Seq<char>,
}

impl View for Song {
    type V = SongView;

    open spec fn view(&self) -> SongView {
        SongView {
            id: self.id,
            title: self.title@,
            description: self.description@,
            link: self.link@,
        }
    }
}

pub open spec fn opt_view(o: Option<String>) -> Option<Seq<char>> {
    match o {
        Some(s) => Some(s@),
        None => None,
    }
}

/// An optional text, read as empty when absent.
pub open spec fn or_empty(o: Option<Seq<char>>) -> Seq<char> {
    match o {
        Some(s) => s,
        None => Seq::empty(),
    }
}

/// A text kept unless it is empty; the store holds an empty text as absent.
pub open spec fn none_if_empty(s: Seq<char>) -> Option<Seq<char>> {
    if s.len() == 0 {
        None
    } else {
        Some(s)
    }
}

/// Drops an empty text; any other text, whitespace included, is kept as given.
pub fn empty_to_none(value: String) -> (r: Option<String>)
    ensures
        opt_view(r) == none_if_empty(value@),
{
    if value.as_str().unicode_len() == 0 {
        None
    } else {
        Some(value)
    }
}

fn text_or_empty(o: Option<String>) -> (r: String)
    ensures
        r@ == or_empty(opt_view(o)),
{
    match o {
        Some(s) => s,
        None => String::new(),
    }
}

pub open spec fn song_of_row(
    id: i32,
    title: Seq<char>,
    description: Option<Seq<char>>,
    link: Option<Seq<char>>,
) -> SongView {
    SongView { id: id as u64, title, description: or_empty(description), link: or_empty(link) }
}

/// A stored row as callers see it.
pub fn row_to_song(row: SongRow) -> (r: Song)
    ensures
        r@ == song_of_row(row.id, row.title@, opt_view(row.description), opt_view(row.link)),
{
    Song {
        id: row.id as u64,
        title: row.title,
        description: text_or_empty(row.description),
        link: text_or_empty(row.link),
    }
}

/// Every stored row as callers see it, in the same order.
pub fn rows_to_songs(rows: Vec<SongRow>) -> (r: Vec<Song>)
    ensures
        r@.len() == rows@.len(),
        forall|i: int|
            0 <= i < rows@.len() ==> #[trigger] r@[i]@ == song_of_row(
                rows@[i].id,
                rows@[i].title@,
                opt_view(rows@[i].description),
                opt_view(rows@[i].link),
            ),
{
    let mut out: Vec<Song> = Vec::new();
    let mut i: usize = 0;
    while i < rows.len()
        invariant
            i <= rows@.len(),
            out@.len() == i,
            forall|k: int|
                0 <= k < i ==> #[trigger] out@[k]@ == song_of_row(
                    rows@[k].id,
                    rows@[k].title@,
                    opt_view(rows@[k].description),
                    opt_view(rows@[k].link),
                ),
        decreases rows@.len() - i,
    {
        let row = &rows[i];
        let song = row_to_song(
            SongRow {
                id: row.id,
                title: row.title.clone(),
                description: row.description.clone(),
                link: row.link.clone(),
            },
        );
        out.push(song);
        i = i + 1;
    }
    out
}

/// The fields of a song that an update mask may name.
pub open spec fn song_fields() -> Seq<Seq<char>> {
    seq!["title"@, "description"@, "link"@]
}

/// The song that an update makes of the stored one.
pub open spec fn merged_song(existing: SongView, incoming: SongView, mask: Option<FieldMask>) -> SongView {
    SongView {
        id: existing.id,
        title: if writes(mask, "title"@) {
            incoming.title
        } else {
            existing.title
        },
        description: if writes(mask, "description"@) {
            incoming.description
        } else {
            existing.description
        },
        link: if writes(mask, "link"@) {
            incoming.link
        } else {
            existing.link
        },
    }
}

pub open spec fn row_view(row: SongRow) -> SongView {
    song_of_row(row.id, row.title@, opt_view(row.description), opt_view(row.link))
}

/// Merges an update into the stored song: the fields that the mask names, or all of them when
/// it names none, come from `incoming`; a mask that names an unknown field is refused.
pub fn apply_song_update_mask(
    existing: &SongRow,
    incoming: &Song,
    mask: Option<FieldMask>,
) -> (r: Result<Song, ServiceError>)
    ensures
        match r {
            Ok(s) => mask_accepted(mask, song_fields()) && s@ == merged_song(
                row_view(*existing),
                incoming@,
                mask,
            ),
            Err(e) => !mask_accepted(mask, song_fields()) && e.code == Code::InvalidArgument
                && e.message@ == "unsupported update_mask path"@,
        },
{
    let paths = into_paths(mask);
    let mut fields: Vec<&str> = Vec::new();
    fields.push("title");
    fields.push("description");
    fields.push("link");
    assert(str_views(fields@) =~= song_fields());
    if paths.len() > 0 && !all_paths_known(&paths, &fields) {
        return Err(ServiceError::invalid_argument("unsupported update_mask path"));
    }
    let all = paths.len() == 0;
    let title = if all || names_field(&paths, "title") {
        incoming.title.clone()
    } else {
        existing.title.clone()
    };
    let description = if all || names_field(&paths, "description") {
        incoming.description.clone()
    } else {
        text_or_empty(existing.description.clone())
    };
    let link = if all || names_field(&paths, "link") {
        incoming.link.clone()
    } else {
        text_or_empty(existing.link.clone())
    };
    Ok(Song { id: existing.id as u64, title, description, link })
}

pub open spec fn values_view(v: SongValues) -> (Seq<char>, Option<Seq<char>>, Option<Seq<char>>) {
    (v.title@, opt_view(v.description), opt_view(v.link))
}

/// The values written for a song: its title, and its description and link unless blank.
pub open spec fn stored_song(s: SongView) -> (Seq<char>, Option<Seq<char>>, Option<Seq<char>>) {
    (s.title, none_if_empty(s.description), none_if_empty(s.link))
}

/// What a create writes for a payload, or the code of the error that refuses it.
pub open spec fn new_song_of(payload: Option<SongView>) -> Result<
    (Seq<char>, Option<Seq<char>>, Option<Seq<char>>),
    Code,
> {
    match payload {
        None => Err(Code::InvalidArgument),
        Some(s) => if is_blank(s.title) {
            Err(Code::InvalidArgument)
        } else {
            Ok(stored_song(s))
        },
    }
}

pub open spec fn payload_view(payload: Option<Song>) -> Option<SongView> {
    match payload {
        Some(s) => Some(s@),
        None => None,
    }
}

fn values_of(song: Song) -> (r: SongValues)
    ensures
        values_view(r) == stored_song(song@),
{
    SongValues {
        title: song.title,
        description: empty_to_none(song.description),
        link: empty_to_none(song.link),
    }
}

/// Checks a create request's payload and gives the values to insert.
pub fn prepare_create_song(payload: Option<Song>) -> (r: Result<SongValues, ServiceError>)
    ensures
        match r {
            Ok(v) => new_song_of(payload_view(payload)) == Ok::<_, Code>(values_view(v)),
            Err(e) => new_song_of(payload_view(payload)) == Err::<
                (Seq<char>, Option<Seq<char>>, Option<Seq<char>>),
                Code,
            >(e.code) && e.message@ == if payload is None {
                "create_song requires song payload"@
            } else {
                "song title is required"@
            },
        },
{
    let song = match payload {
        Some(s) => s,
        None => return Err(ServiceError::invalid_argument("create_song requires song payload")),
    };
    if blank(song.title.as_str()) {
        return Err(ServiceError::invalid_argument("song title is required"));
    }
    Ok(values_of(song))
}

/// Checks an update request's payload: it must be present and name a song by a non-zero id.
pub fn prepare_update_song(payload: Option<Song>) -> (r: Result<Song, ServiceError>)
    ensures
        match r {
            Ok(s) => payload == Some(s) && s.id != 0,
            Err(e) => (payload is None || payload->Some_0.id == 0) && e.code == Code::InvalidArgument
                && e.message@ == if payload is None {
                "update_song requires song payload"@
            } else {
                "song id is required"@
            },
        },
{
    let song = match payload {
        Some(s) => s,
        None => return Err(ServiceError::invalid_argument("update_song requires song payload")),
    };
    if song.id == 0 {
        return Err(ServiceError::invalid_argument("song id is required"));
    }
    Ok(song)
}

/// What an update writes over the stored song, or the code of the error that refuses it.
pub open spec fn song_update_of(existing: SongView, incoming: SongView, mask: Option<FieldMask>) -> Result<
    (Seq<char>, Option<Seq<char>>, Option<Seq<char>>),
    Code,
> {
    if !mask_accepted(mask, song_fields()) {
        Err(Code::InvalidArgument)
    } else {
        let m = merged_song(existing, incoming, mask);
        if is_blank(m.title) {
            Err(Code::InvalidArgument)
        } else {
            Ok(stored_song(m))
        }
    }
}

/// Merges an update into the stored song and checks the result; gives the values to write.
pub fn resolve_song_update(existing: &SongRow, incoming: &Song, mask: Option<FieldMask>) -> (r: Result<
    SongValues,
    ServiceError,
>)
    ensures
        match r {
            Ok(v) => song_update_of(row_view(*existing), incoming@, mask) == Ok::<_, Code>(
                values_view(v),
            ),
            Err(e) => song_update_of(row_view(*existing), incoming@, mask) == Err::<
                (Seq<char>, Option<Seq<char>>, Option<Seq<char>>),
                Code,
            >(e.code) && e.message@ == if mask_accepted(mask, song_fields()) {
                "song title is required"@
            } else {
                "unsupported update_mask path"@
            },
        },
{
    let updated = match apply_song_update_mask(existing, incoming, mask) {
        Ok(s) => s,
        Err(e) => return Err(e),
    };
    if blank(updated.title.as_str()) {
        return Err(ServiceError::invalid_argument("song title is required"));
    }
    Ok(values_of(updated))
}

/// Creating a song from a valid payload and reading back the row that the store returns for it
/// gives the store's id with the payload's title, description and link.
pub proof fn lemma_created_song_reads_back(payload: SongView, id: i32)
    requires
        !is_blank(payload.title),
    ensures
        new_song_of(Some(payload)) matches Ok(v) && song_of_row(id, v.0, v.1, v.2) == (SongView {
            id: id as u64,
            title: payload.title,
            description: payload.description,
            link: payload.link,
        }),
{
    if payload.description.len() == 0 {
        assert(payload.description =~= Seq::<char>::empty());
    }
    if payload.link.len() == 0 {
        assert(payload.link =~= Seq::<char>::empty());
    }
}

/// An update whose mask lists no path replaces every mutable field with the proposed value, and
/// the row it writes reads back as the proposal.
pub proof fn lemma_unmasked_song_update_replaces(
    existing: SongView,
    incoming: SongView,
    mask: Option<FieldMask>,
    id: i32,
)
    requires
        mask_paths(mask).len() == 0,
    ensures
        mask_accepted(mask, song_fields()),
        merged_song(existing, incoming, mask) == (SongView { id: existing.id, ..incoming }),
        !is_blank(incoming.title) ==> song_update_of(existing, incoming, mask) == Ok::<_, Code>(
            stored_song(incoming),
        ),
        song_of_row(id, stored_song(incoming).0, stored_song(incoming).1, stored_song(incoming).2)
            == (SongView { id: id as u64, ..incoming }),
{
    if incoming.description.len() == 0 {
        assert(incoming.description =~= Seq::<char>::empty());
    }
    if incoming.link.len() == 0 {
        assert(incoming.link =~= Seq::<char>::empty());
    }
}

/// An update whose mask names a path that is not a song field is refused with
/// `InvalidArgument`, whatever the stored song and the proposal are, so nothing is written.
pub proof fn lemma_unknown_song_path_rejected(
    existing: SongView,
    incoming: SongView,
    mask: Option<FieldMask>,
    i: int,
)
    requires
        0 <= i < mask_paths(mask).len(),
        !song_fields().contains(mask_paths(mask)[i]),
    ensures
        song_update_of(existing, incoming, mask) == Err::<
            (Seq<char>, Option<Seq<char>>, Option<Seq<char>>),
            Code,
        >(Code::InvalidArgument),
{
}

} // verus!
