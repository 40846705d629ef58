//! Release submissions typed into the "Add Release" modal: the typed
//! builder that assembles them and the reading of a submitted modal.

use crate::calendar::{compact_date, compact_date_cuts_ok, CalendarDate};
use crate::decimal::parse_small_decimal;
use vstd::prelude::*;
use vstd::string::StringSliceAdditionalSpecFns;
use vstd::utf8::encode_utf8;

verus! {

/// Why a submitted modal does not make a release submission.
#[derive(Clone, Copy, Debug, PartialEq, Eq)]
pub enum SubmissionError {
    MissingArtist,
    MissingAlbum,
    MissingReleaseDate,
    InvalidDate,
}

impl SubmissionError {
    /// The text shown for the error.
    pub open spec fn text(self) -> Seq<char> {
        match self {
            SubmissionError::MissingArtist => "Error getting 'Artist'"@,
            SubmissionError::MissingAlbum => "Error getting 'Album'"@,
            SubmissionError::MissingReleaseDate => "Error getting 'Release Date'"@,
            SubmissionError::InvalidDate => "Invalid Date"@,
        }
    }

    /// The text shown for the error.
    pub fn message(&self) -> (text: &'static str)
        ensures
            text@ == self.text(),
    {
        match self {
            SubmissionError::MissingArtist => "Error getting 'Artist'",
            SubmissionError::MissingAlbum => "Error getting 'Album'",
            SubmissionError::MissingReleaseDate => "Error getting 'Release Date'",
            SubmissionError::InvalidDate => "Invalid Date",
        }
    }
}

pub open spec fn option_view(o: Option<String>) -> Option<Seq<char>> {
    match o {
        Some(s) => Some(s@),
        None => None,
    }
}

/// A release as a user submitted it.
#[derive(Debug)]
pub struct ReleaseSubmission {
    pub artist: String,
    pub name: String,
    pub label: Option<String>,
    pub release_date: CalendarDate,
}

/// The contents of a `ReleaseSubmission`.
pub struct SubmissionView {
    pub artist: Seq<char>,
    pub name: Seq<char>,
    pub label: Option<Seq<char>>,
    pub release_date: (i32, u32, u32),
}

impl View for ReleaseSubmission {
    type V = SubmissionView;

    open spec fn view(&self) -> SubmissionView {
        SubmissionView {
            artist: self.artist@,
            name: self.name@,
            label: option_view(self.label),
            release_date: self.release_date@,
        }
    }
}

impl Default for ReleaseSubmission {
    /// The placeholder submission: "Artist Name", "Release Title", no
    /// label, released on 0000-01-01.
    fn default() -> (r: Self)
        ensures
            r@.artist == "Artist Name"@,
            r@.name == "Release Title"@,
            r@.label is None,
            r@.release_date == (0i32, 1u32, 1u32),
    {
        ReleaseSubmission {
            artist: String::from_str("Artist Name"),
            name: String::from_str("Release Title"),
            label: None,
            release_date: CalendarDate::from_ymd_opt(0, 1, 1).unwrap(),
        }
    }
}

/// Whether the builder holds an artist yet.
pub trait ArtistState {
    /// The artist held, if any.
    spec fn artist_value(&self) -> Option<Seq<char>>;
}

pub struct NoArtist;

pub struct Artist(pub String);

impl ArtistState for NoArtist {
    open spec fn artist_value(&self) -> Option<Seq<char>> {
        None
    }
}

impl ArtistState for Artist {
    open spec fn artist_value(&self) -> Option<Seq<char>> {
        Some(self.0@)
    }
}

/// Whether the builder holds a release title yet.
pub trait AlbumState {
    /// The release title held, if any.
    spec fn album_value(&self) -> Option<Seq<char>>;
}

pub struct NoAlbum;

pub struct Album(pub String);

impl AlbumState for NoAlbum {
    open spec fn album_value(&self) -> Option<Seq<char>> {
        None
    }
}

impl AlbumState for Album {
    open spec fn album_value(&self) -> Option<Seq<char>> {
        Some(self.0@)
    }
}

/// Whether the builder holds a release date yet.
pub trait ReleaseDateState {
    /// The release date held, if any.
    spec fn date_value(&self) -> Option<(i32, u32, u32)>;
}

pub struct NoReleaseDate;

pub struct ReleaseDate(pub CalendarDate);

impl ReleaseDateState for NoReleaseDate {
    open spec fn date_value(&self) -> Option<(i32, u32, u32)> {
        None
    }
}

impl ReleaseDateState for ReleaseDate {
    open spec fn date_value(&self) -> Option<(i32, u32, u32)> {
        Some(self.0@)
    }
}

/// What a builder holds: artist, release title, label and release date,
/// each where set.
pub struct BuilderView {
    pub artist: Option<Seq<char>>,
    pub album: Option<Seq<char>>,
    pub label: Option<Seq<char>>,
    pub date: Option<(i32, u32, u32)>,
}

/// A call of one of the builder's setters, with the value it sets.
pub enum BuilderStep {
    Artist(Seq<char>),
    Name(Seq<char>),
    Label(Option<Seq<char>>),
    ReleaseDate((i32, u32, u32)),
}

/// What a builder holds after a setter call.
pub open spec fn apply_step(v: BuilderView, step: BuilderStep) -> BuilderView {
    match step {
        BuilderStep::Artist(a) => BuilderView { artist: Some(a), ..v },
        BuilderStep::Name(n) => BuilderView { album: Some(n), ..v },
        BuilderStep::Label(l) => BuilderView { label: l, ..v },
        BuilderStep::ReleaseDate(d) => BuilderView { date: Some(d), ..v },
    }
}

/// What a builder holds after setter calls, in order.
pub open spec fn apply_steps(v: BuilderView, steps: Seq<BuilderStep>) -> BuilderView
    decreases steps.len(),
{
    if steps.len() == 0 {
        v
    } else {
        apply_steps(apply_step(v, steps[0]), steps.drop_first())
    }
}

/// What a new builder holds: nothing.
pub open spec fn empty_builder() -> BuilderView {
    BuilderView { artist: None, album: None, label: None, date: None }
}

/// Law: the builder's four setters may be called in any order. Each of
/// the 24 orders of one call each, starting from a new builder, leaves the
/// builder holding the four values set.
pub proof fn lemma_builder_order_ignored(
    steps: Seq<BuilderStep>,
    artist: Seq<char>,
    name: Seq<char>,
    label: Option<Seq<char>>,
    date: (i32, u32, u32),
)
    requires
        steps.len() == 4,
        steps.contains(BuilderStep::Artist(artist)),
        steps.contains(BuilderStep::Name(name)),
        steps.contains(BuilderStep::Label(label)),
        steps.contains(BuilderStep::ReleaseDate(date)),
    ensures
        apply_steps(empty_builder(), steps) == (BuilderView {
            artist: Some(artist),
            album: Some(name),
            label,
            date: Some(date),
        }),
{
    let ia = choose|i: int| 0 <= i < 4 && steps[i] == BuilderStep::Artist(artist);
    let iname = choose|i: int| 0 <= i < 4 && steps[i] == BuilderStep::Name(name);
    let il = choose|i: int| 0 <= i < 4 && steps[i] == BuilderStep::Label(label);
    let id = choose|i: int| 0 <= i < 4 && steps[i] == BuilderStep::ReleaseDate(date);
    assert(ia != iname && ia != il && ia != id && iname != il && iname != id && il != id);
    let (s0, s1, s2, s3) = (steps[0], steps[1], steps[2], steps[3]);
    let v0 = empty_builder();
    let v1 = apply_step(v0, s0);
    let v2 = apply_step(v1, s1);
    let v3 = apply_step(v2, s2);
    let v4 = apply_step(v3, s3);
    assert(steps.drop_first() =~= seq![s1, s2, s3]);
    assert(seq![s1, s2, s3].drop_first() =~= seq![s2, s3]);
    assert(seq![s2, s3].drop_first() =~= seq![s3]);
    assert(seq![s3].drop_first() =~= Seq::<BuilderStep>::empty());
    reveal_with_fuel(apply_steps, 5);
    assert(apply_steps(v0, steps) == v4);
}

/// Assembles a `ReleaseSubmission`; its type records which of artist,
/// release title and release date it holds, and only a builder that holds
/// all three can build.
pub struct ReleaseSubmissionBuilder<
    TArtist: ArtistState,
    TAlbum: AlbumState,
    TReleaseDate: ReleaseDateState,
> {
    artist: TArtist,
    name: TAlbum,
    label: Option<String>,
    release_date: TReleaseDate,
}

impl<
    TArtist: ArtistState,
    TAlbum: AlbumState,
    TReleaseDate: ReleaseDateState,
> ReleaseSubmissionBuilder<TArtist, TAlbum, TReleaseDate> {
    pub closed spec fn artist_value(&self) -> Option<Seq<char>> {
        self.artist.artist_value()
    }

    pub closed spec fn album_value(&self) -> Option<Seq<char>> {
        self.name.album_value()
    }

    pub closed spec fn label_value(&self) -> Option<Seq<char>> {
        option_view(self.label)
    }

    pub closed spec fn date_value(&self) -> Option<(i32, u32, u32)> {
        self.release_date.date_value()
    }

    /// What the builder holds.
    pub open spec fn holds(&self) -> BuilderView {
        BuilderView {
            artist: self.artist_value(),
            album: self.album_value(),
            label: self.label_value(),
            date: self.date_value(),
        }
    }

    /// Sets the artist.
    pub fn artist(self, artist: String) -> (r: ReleaseSubmissionBuilder<
        Artist,
        TAlbum,
        TReleaseDate,
    >)
        ensures
            r.holds() == apply_step(self.holds(), BuilderStep::Artist(artist@)),
    {
        ReleaseSubmissionBuilder {
            artist: Artist(artist),
            name: self.name,
            label: self.label,
            release_date: self.release_date,
        }
    }

    /// Sets the release title.
    pub fn name(self, name: String) -> (r: ReleaseSubmissionBuilder<
        TArtist,
        Album,
        TReleaseDate,
    >)
        ensures
            r.holds() == apply_step(self.holds(), BuilderStep::Name(name@)),
    {
        ReleaseSubmissionBuilder {
            artist: self.artist,
            name: Album(name),
            label: self.label,
            release_date: self.release_date,
        }
    }

    /// Sets (or clears) the label.
    pub fn label(self, label: Option<String>) -> (r: Self)
        ensures
            r.holds() == apply_step(self.holds(), BuilderStep::Label(option_view(label))),
    {
        Self { label, ..self }
    }

    /// Sets the release date from its `YYYYMMDD` text; an error where the
    /// text is no date.
    pub fn release_date(self, release_date: String) -> (r: Result<
        ReleaseSubmissionBuilder<TArtist, TAlbum, ReleaseDate>,
        SubmissionError,
    >)
        requires
            compact_date_cuts_ok(encode_utf8(release_date@)),
        ensures
            match compact_date(encode_utf8(release_date@)) {
                Some(date) => r matches Ok(b) && b.holds() == apply_step(
                    self.holds(),
                    BuilderStep::ReleaseDate(date),
                ),
                None => r matches Err(e) && e == SubmissionError::InvalidDate,
            },
    {
        let date = Self::string_to_date(release_date.as_str())?;
        Ok(
            ReleaseSubmissionBuilder {
                artist: self.artist,
                name: self.name,
                label: self.label,
                release_date: ReleaseDate(date),
            },
        )
    }

    /// Reads a `YYYYMMDD` text as a date: an `i32` year from bytes 0 to 4,
    /// `u32` month and day from bytes 4 to 6 and 6 to 8, making a day of
    /// the calendar; any other text gives `InvalidDate`.
    pub fn string_to_date(date_string: &str) -> (r: Result<CalendarDate, SubmissionError>)
        requires
            compact_date_cuts_ok(date_string.spec_bytes()),
        ensures
            match compact_date(date_string.spec_bytes()) {
                Some(date) => r matches Ok(d) && d@ == date,
                None => r matches Err(e) && e == SubmissionError::InvalidDate,
            },
    {
        let bytes = date_string.as_bytes();
        if bytes.len() != 8 {
            return Err(SubmissionError::InvalidDate);
        }
        let year = match parse_small_decimal(bytes, 0, 4, true) {
            Some(y) => y,
            None => return Err(SubmissionError::InvalidDate),
        };
        let month = match parse_small_decimal(bytes, 4, 6, false) {
            Some(m) => m,
            None => return Err(SubmissionError::InvalidDate),
        };
        let day = match parse_small_decimal(bytes, 6, 8, false) {
            Some(d) => d,
            None => return Err(SubmissionError::InvalidDate),
        };
        match CalendarDate::from_ymd_opt(year, month as u32, day as u32) {
            Some(date) => Ok(date),
            None => Err(SubmissionError::InvalidDate),
        }
    }
}

impl ReleaseSubmissionBuilder<NoArtist, NoAlbum, NoReleaseDate> {
    /// An empty builder.
    pub fn new() -> (r: Self)
        ensures
            r.holds() == empty_builder(),
    {
        Self::default()
    }
}

impl Default for ReleaseSubmissionBuilder<NoArtist, NoAlbum, NoReleaseDate> {
    fn default() -> (r: Self)
        ensures
            r.holds() == empty_builder(),
    {
        Self { artist: NoArtist, name: NoAlbum, label: None, release_date: NoReleaseDate }
    }
}

impl ReleaseSubmissionBuilder<Artist, Album, ReleaseDate> {
    /// The submission of the artist, title, label and date held.
    pub fn build(self) -> (r: Result<ReleaseSubmission, SubmissionError>)
        ensures
            r matches Ok(s) && {
                &&& Some(s@.artist) == self.artist_value()
                &&& Some(s@.name) == self.album_value()
                &&& s@.label == self.label_value()
                &&& Some(s@.release_date) == self.date_value()
            },
    {
        Ok(
            ReleaseSubmission {
                artist: self.artist.0,
                name: self.name.0,
                label: self.label,
                release_date: self.release_date.0,
            },
        )
    }
}

/// A text input of a submitted modal: its custom id and the text typed.
pub struct InputText {
    pub custom_id: String,
    pub value: Option<String>,
}

/// A component of an action row of a submitted modal.
pub enum ActionRowComponent {
    InputText(InputText),
    /// Buttons, select menus and the like.
    Other,
}

/// An action row of a submitted modal.
pub struct ActionRow {
    pub components: Vec<ActionRowComponent>,
}

/// What a user submitted through a modal: its action rows.
pub struct ModalInteractionData {
    pub components: Vec<ActionRow>,
}

/// The custom id and typed text of a row, where its first component is a
/// text input.
pub open spec fn row_input(row: ActionRow) -> Option<(Seq<char>, Option<Seq<char>>)> {
    if row.components@.len() > 0 {
        match row.components@[0] {
            ActionRowComponent::InputText(t) => Some((t.custom_id@, option_view(t.value))),
            ActionRowComponent::Other => None,
        }
    } else {
        None
    }
}

/// The first text typed into a text input with custom id `id`, among the
/// rows in order (inputs with that id and no text are passed over).
pub open spec fn field_value(rows: Seq<ActionRow>, id: Seq<char>) -> Option<Seq<char>>
    decreases rows.len(),
{
    if rows.len() == 0 {
        None
    } else {
        let rest = field_value(rows.drop_first(), id);
        match row_input(rows[0]) {
            Some((custom_id, value)) => if custom_id == id && value is Some {
                value
            } else {
                rest
            },
            None => rest,
        }
    }
}

/// The submission a modal makes: artist, release title and release date
/// are looked for in that order, each missing one is an error, and the
/// release date must be a `YYYYMMDD` date; the label is optional.
pub open spec fn submission_of(rows: Seq<ActionRow>) -> Result<SubmissionView, SubmissionError> {
    let artist = field_value(rows, "artist"@);
    let name = field_value(rows, "name"@);
    let date = field_value(rows, "release_date"@);
    let label = field_value(rows, "label"@);
    if artist is None {
        Err(SubmissionError::MissingArtist)
    } else if name is None {
        Err(SubmissionError::MissingAlbum)
    } else if date is None {
        Err(SubmissionError::MissingReleaseDate)
    } else {
        match compact_date(encode_utf8(date.unwrap())) {
            Some(d) => Ok(
                SubmissionView {
                    artist: artist.unwrap(),
                    name: name.unwrap(),
                    label,
                    release_date: d,
                },
            ),
            None => Err(SubmissionError::InvalidDate),
        }
    }
}

/// Reading the release date of the modal does not cut a character in two
/// (see `compact_date_cuts_ok`); it is read once artist, release title and
/// release date have all been found.
pub open spec fn modal_date_cuts_ok(rows: Seq<ActionRow>) -> bool {
    let artist = field_value(rows, "artist"@);
    let name = field_value(rows, "name"@);
    let date = field_value(rows, "release_date"@);
    artist is Some && name is Some && date is Some ==> compact_date_cuts_ok(
        encode_utf8(date.unwrap()),
    )
}

/// The custom ids the release form reads.
pub open spec fn wanted_id(id: Seq<char>) -> bool {
    id == "artist"@ || id == "name"@ || id == "label"@ || id == "release_date"@
}

/// A row that nothing is read from: its first component is no text input,
/// or the text input has no text, or its custom id is none the form reads.
pub open spec fn unwanted_row(row: ActionRow) -> bool {
    match row_input(row) {
        None => true,
        Some((custom_id, value)) => value is None || !wanted_id(custom_id),
    }
}

/// The rows whose `keep` flag is set, in order.
pub open spec fn kept(rows: Seq<ActionRow>, keep: Seq<bool>) -> Seq<ActionRow>
    decreases rows.len(),
{
    if rows.len() == 0 || keep.len() == 0 {
        Seq::empty()
    } else if keep[0] {
        seq![rows[0]] + kept(rows.drop_first(), keep.drop_first())
    } else {
        kept(rows.drop_first(), keep.drop_first())
    }
}

/// The row's first component is a text input with custom id `id`.
pub open spec fn has_input_id(row: ActionRow, id: Seq<char>) -> bool {
    row_input(row) matches Some((custom_id, _)) && custom_id == id
}

/// The rows without those whose first component is a text input with
/// custom id `id`.
pub open spec fn without_input(rows: Seq<ActionRow>, id: Seq<char>) -> Seq<ActionRow>
    decreases rows.len(),
{
    if rows.len() == 0 {
        rows
    } else if has_input_id(rows[0], id) {
        without_input(rows.drop_first(), id)
    } else {
        seq![rows[0]] + without_input(rows.drop_first(), id)
    }
}

/// The row's first component is a text input with custom id `id` and
/// some text.
pub open spec fn has_text_for(row: ActionRow, id: Seq<char>) -> bool {
    row_input(row) matches Some((custom_id, value)) && custom_id == id && value is Some
}

/// The custom id of the row's first-component text input.
pub open spec fn input_id(row: ActionRow) -> Seq<char> {
    row_input(row).unwrap().0
}

/// No two rows have a first-component text input with the same custom id.
pub open spec fn distinct_inputs(rows: Seq<ActionRow>) -> bool {
    forall|i: int, j: int|
        0 <= i < rows.len() && 0 <= j < rows.len() && i != j && row_input(#[trigger] rows[i])
            is Some && row_input(#[trigger] rows[j]) is Some ==> input_id(rows[i]) != input_id(
            rows[j],
        )
}

proof fn lemma_field_value_found(rows: Seq<ActionRow>, id: Seq<char>)
    ensures
        field_value(rows, id) matches Some(v) ==> exists|r: ActionRow|
            #![trigger rows.contains(r)]
            rows.contains(r) && row_input(r) == Some((id, Some(v))),
        field_value(rows, id) is None ==> forall|r: ActionRow|
            #![trigger rows.contains(r)]
            rows.contains(r) ==> !has_text_for(r, id),
    decreases rows.len(),
{
    if rows.len() > 0 {
        let rest = rows.drop_first();
        lemma_field_value_found(rest, id);
        assert forall|r: ActionRow| rest.contains(r) implies rows.contains(r) by {
            let i = choose|i: int| 0 <= i < rest.len() && rest[i] == r;
            assert(rows[i + 1] == r);
        }
        assert(rows.contains(rows[0]));
        assert forall|r: ActionRow| rows.contains(r) && r != rows[0] implies rest.contains(r) by {
            let i = choose|i: int| 0 <= i < rows.len() && rows[i] == r;
            assert(rest[i - 1] == r);
        }
    }
}

proof fn lemma_distinct_same_row(rows: Seq<ActionRow>, r1: ActionRow, r2: ActionRow)
    requires
        distinct_inputs(rows),
        rows.contains(r1),
        rows.contains(r2),
        row_input(r1) is Some,
        row_input(r2) is Some,
        input_id(r1) == input_id(r2),
    ensures
        r1 == r2,
{
    let i = choose|i: int| 0 <= i < rows.len() && rows[i] == r1;
    let j = choose|j: int| 0 <= j < rows.len() && rows[j] == r2;
    if i != j {
        assert(input_id(rows[i]) != input_id(rows[j]));
    }
}

proof fn lemma_field_value_permuted(rows: Seq<ActionRow>, rows2: Seq<ActionRow>, id: Seq<char>)
    requires
        rows2.to_multiset() == rows.to_multiset(),
        distinct_inputs(rows),
    ensures
        field_value(rows2, id) == field_value(rows, id),
{
    broadcast use vstd::seq_lib::group_to_multiset_ensures;

    lemma_field_value_found(rows, id);
    lemma_field_value_found(rows2, id);
    assert forall|r: ActionRow| rows.contains(r) <==> rows2.contains(r) by {
        assert(rows.contains(r) <==> rows.to_multiset().count(r) > 0);
        assert(rows2.contains(r) <==> rows2.to_multiset().count(r) > 0);
    }
    match (field_value(rows, id), field_value(rows2, id)) {
        (Some(v), Some(w)) => {
            let r1 = choose|r: ActionRow| rows.contains(r) && row_input(r) == Some((id, Some(v)));
            let r2 = choose|r: ActionRow| rows2.contains(r) && row_input(r) == Some((id, Some(w)));
            assert(rows.contains(r2));
            lemma_distinct_same_row(rows, r1, r2);
        },
        (Some(v), None) => {
            let r1 = choose|r: ActionRow| rows.contains(r) && row_input(r) == Some((id, Some(v)));
            assert(rows2.contains(r1));
            assert(has_text_for(r1, id));
        },
        (None, Some(w)) => {
            let r2 = choose|r: ActionRow| rows2.contains(r) && row_input(r) == Some((id, Some(w)));
            assert(rows.contains(r2));
            assert(has_text_for(r2, id));
        },
        (None, None) => {},
    }
}

/// Law: what a typed form reads as. A field is reported missing only when
/// no row holds a text input of that id with text; a form whose artist,
/// title and release date inputs have text and whose date is a `YYYYMMDD`
/// date reads as the texts typed first into each input, whatever they are;
/// and every submission read has an artist and a title that some row of
/// the form holds.
pub proof fn lemma_typed_form_reads(rows: Seq<ActionRow>)
    ensures
        (exists|r: ActionRow| #![trigger rows.contains(r)] rows.contains(r) && has_text_for(r, "artist"@))
            ==> submission_of(rows) != Err::<SubmissionView, SubmissionError>(
            SubmissionError::MissingArtist,
        ),
        (exists|r: ActionRow| #![trigger rows.contains(r)] rows.contains(r) && has_text_for(r, "name"@))
            ==> submission_of(rows) != Err::<SubmissionView, SubmissionError>(
            SubmissionError::MissingAlbum,
        ),
        (exists|r: ActionRow| #![trigger rows.contains(r)] rows.contains(r) && has_text_for(r, "release_date"@))
            ==> submission_of(rows) != Err::<SubmissionView, SubmissionError>(
            SubmissionError::MissingReleaseDate,
        ),
        ({
            let artist = field_value(rows, "artist"@);
            let name = field_value(rows, "name"@);
            let date = field_value(rows, "release_date"@);
            artist is Some && name is Some && date is Some && compact_date(
                encode_utf8(date.unwrap()),
            ) is Some ==> submission_of(rows) == Ok::<SubmissionView, SubmissionError>(
                (SubmissionView {
                    artist: artist.unwrap(),
                    name: name.unwrap(),
                    label: field_value(rows, "label"@),
                    release_date: compact_date(encode_utf8(date.unwrap())).unwrap(),
                }),
            )
        }),
        submission_of(rows) matches Ok(s) ==> (exists|r: ActionRow|
            #![trigger rows.contains(r)]
            rows.contains(r) && row_input(r) == Some(("artist"@, Some(s.artist)))),
        submission_of(rows) matches Ok(s) ==> (exists|r: ActionRow|
            #![trigger rows.contains(r)]
            rows.contains(r) && row_input(r) == Some(("name"@, Some(s.name)))),
{
    lemma_field_value_found(rows, "artist"@);
    lemma_field_value_found(rows, "name"@);
    lemma_field_value_found(rows, "release_date"@);
}

/// Law: rows may come in any order. Where no two rows have a text input
/// with the same custom id, a reordering of the rows (the same rows, each
/// as often) reads as the same submission, or the same error.
pub proof fn lemma_row_order_ignored(rows: Seq<ActionRow>, reordered: Seq<ActionRow>)
    requires
        reordered.to_multiset() == rows.to_multiset(),
        distinct_inputs(rows),
    ensures
        submission_of(reordered) == submission_of(rows),
        modal_date_cuts_ok(reordered) == modal_date_cuts_ok(rows),
{
    lemma_field_value_permuted(rows, reordered, "artist"@);
    lemma_field_value_permuted(rows, reordered, "name"@);
    lemma_field_value_permuted(rows, reordered, "label"@);
    lemma_field_value_permuted(rows, reordered, "release_date"@);
}

proof fn lemma_kept_field_value(rows: Seq<ActionRow>, keep: Seq<bool>, id: Seq<char>)
    requires
        keep.len() == rows.len(),
        forall|i: int| 0 <= i < rows.len() && !keep[i] ==> unwanted_row(#[trigger] rows[i]),
        wanted_id(id),
    ensures
        field_value(kept(rows, keep), id) == field_value(rows, id),
    decreases rows.len(),
{
    if rows.len() > 0 {
        let rest = rows.drop_first();
        let keep_rest = keep.drop_first();
        assert forall|i: int| 0 <= i < rest.len() && !keep_rest[i] implies unwanted_row(
            #[trigger] rest[i],
        ) by {
            assert(rest[i] == rows[i + 1]);
            assert(!keep[i + 1]);
        }
        lemma_kept_field_value(rest, keep_rest, id);
        if keep[0] {
            let k = seq![rows[0]] + kept(rest, keep_rest);
            assert(k.drop_first() =~= kept(rest, keep_rest));
            assert(k[0] == rows[0]);
        } else {
            assert(unwanted_row(rows[0]));
        }
    }
}

/// Law: rows that nothing is read from change nothing, however many and
/// wherever they stand: the rows read as the same submission, or the same
/// error, as the rows kept once they are taken out.
pub proof fn lemma_unwanted_rows_ignored(rows: Seq<ActionRow>, keep: Seq<bool>)
    requires
        keep.len() == rows.len(),
        forall|i: int| 0 <= i < rows.len() && !keep[i] ==> unwanted_row(#[trigger] rows[i]),
    ensures
        submission_of(rows) == submission_of(kept(rows, keep)),
        modal_date_cuts_ok(rows) == modal_date_cuts_ok(kept(rows, keep)),
{
    lemma_kept_field_value(rows, keep, "artist"@);
    lemma_kept_field_value(rows, keep, "name"@);
    lemma_kept_field_value(rows, keep, "label"@);
    lemma_kept_field_value(rows, keep, "release_date"@);
}

proof fn lemma_without_input_field_value(rows: Seq<ActionRow>, id: Seq<char>, other: Seq<char>)
    ensures
        field_value(without_input(rows, id), other) == if other == id {
            None
        } else {
            field_value(rows, other)
        },
    decreases rows.len(),
{
    if rows.len() > 0 {
        let rest = rows.drop_first();
        lemma_without_input_field_value(rest, id, other);
        if !has_input_id(rows[0], id) {
            let w = seq![rows[0]] + without_input(rest, id);
            assert(w.drop_first() =~= without_input(rest, id));
            assert(w[0] == rows[0]);
        }
    }
}

/// Law: the label is optional. Taking out the rows whose text input is the
/// label only clears the label of the submission; the errors stay the same,
/// so a missing label is never an error.
pub proof fn lemma_label_rows_only_clear_label(rows: Seq<ActionRow>)
    ensures
        match submission_of(rows) {
            Ok(s) => submission_of(without_input(rows, "label"@)) == Ok::<
                SubmissionView,
                SubmissionError,
            >(
                (SubmissionView {
                    artist: s.artist,
                    name: s.name,
                    label: None,
                    release_date: s.release_date,
                }),
            ),
            Err(e) => submission_of(without_input(rows, "label"@)) == Err::<
                SubmissionView,
                SubmissionError,
            >(e),
        },
        modal_date_cuts_ok(without_input(rows, "label"@)) == modal_date_cuts_ok(rows),
{
    reveal_strlit("label");
    reveal_strlit("artist");
    reveal_strlit("name");
    reveal_strlit("release_date");
    assert("label"@[0] != "artist"@[0]);
    assert("label"@ != "artist"@);
    assert("label"@[0] != "name"@[0]);
    assert("label"@ != "name"@);
    assert("label"@ != "release_date"@);
    lemma_without_input_field_value(rows, "label"@, "artist"@);
    lemma_without_input_field_value(rows, "label"@, "name"@);
    lemma_without_input_field_value(rows, "label"@, "label"@);
    lemma_without_input_field_value(rows, "label"@, "release_date"@);
}

/// The text typed into the first text input with custom id `id` that has
/// text.
fn find_field(rows: &Vec<ActionRow>, id: &String) -> (r: Option<String>)
    ensures
        option_view(r) == field_value(rows@, id@),
{
    let mut i: usize = 0;
    assert(rows@.subrange(0, rows@.len() as int) =~= rows@);
    while i < rows.len()
        invariant
            i <= rows@.len(),
            field_value(rows@, id@) == field_value(rows@.subrange(i as int, rows@.len() as int), id@),
        decreases rows@.len() - i,
    {
        let ghost rest = rows@.subrange(i as int, rows@.len() as int);
        assert(rest.drop_first() =~= rows@.subrange(i as int + 1, rows@.len() as int));
        assert(rest[0] == rows@[i as int]);
        let row = &rows[i];
        if row.components.len() > 0 {
            match &row.components[0] {
                ActionRowComponent::InputText(t) => {
                    if t.custom_id == *id {
                        match &t.value {
                            Some(v) => {
                                return Some(v.clone());
                            },
                            None => {},
                        }
                    }
                },
                ActionRowComponent::Other => {},
            }
        }
        i = i + 1;
    }
    None
}

impl ReleaseSubmission {
    /// Reads the submission out of a submitted "Add Release" modal: the
    /// texts typed into the inputs `artist`, `name`, `label` and
    /// `release_date` (only the first component of each row counts).
    pub fn from_modal_response(modal_response: &ModalInteractionData) -> (r: Result<
        ReleaseSubmission,
        SubmissionError,
    >)
        requires
            modal_date_cuts_ok(modal_response.components@),
        ensures
            match r {
                Ok(s) => submission_of(modal_response.components@) == Ok::<
                    SubmissionView,
                    SubmissionError,
                >(s@),
                Err(e) => submission_of(modal_response.components@) == Err::<
                    SubmissionView,
                    SubmissionError,
                >(e),
            },
    {
        let rows = &modal_response.components;
        let artist = match find_field(rows, &String::from_str("artist")) {
            Some(a) => a,
            None => return Err(SubmissionError::MissingArtist),
        };
        let name = match find_field(rows, &String::from_str("name")) {
            Some(n) => n,
            None => return Err(SubmissionError::MissingAlbum),
        };
        let release_date = match find_field(rows, &String::from_str("release_date")) {
            Some(d) => d,
            None => return Err(SubmissionError::MissingReleaseDate),
        };
        let label = find_field(rows, &String::from_str("label"));
        let builder = ReleaseSubmissionBuilder::new().artist(artist).name(name).label(label);
        builder.release_date(release_date)?.build()
    }
}

} // verus!
