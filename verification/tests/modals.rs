use scheduality::modals::{
    ActionRow, ActionRowComponent, InputText, ModalInteractionData, ReleaseSubmission,
    ReleaseSubmissionBuilder, SubmissionError,
};

fn input(id: &str, value: Option<&str>) -> ActionRow {
    ActionRow {
        components: vec![ActionRowComponent::InputText(InputText {
            custom_id: id.to_string(),
            value: value.map(|v| v.to_string()),
        })],
    }
}

fn modal(rows: Vec<ActionRow>) -> ModalInteractionData {
    ModalInteractionData { components: rows }
}

fn full_form(label: Option<&str>, date: &str) -> ModalInteractionData {
    modal(vec![
        input("artist", Some("Boards of Canada")),
        input("name", Some("Tomorrow's Harvest")),
        input("label", label),
        input("release_date", Some(date)),
    ])
}

fn ymd(s: &ReleaseSubmission) -> (i32, u32, u32) {
    (s.release_date.year(), s.release_date.month(), s.release_date.day())
}

#[test]
fn reads_a_complete_form() {
    let s = ReleaseSubmission::from_modal_response(&full_form(Some("Warp"), "20130605")).unwrap();
    assert_eq!(s.artist, "Boards of Canada");
    assert_eq!(s.name, "Tomorrow's Harvest");
    assert_eq!(s.label, Some("Warp".to_string()));
    assert_eq!(ymd(&s), (2013, 6, 5));
}

#[test]
fn label_is_optional() {
    let s = ReleaseSubmission::from_modal_response(&full_form(None, "20130605")).unwrap();
    assert_eq!(s.label, None);
    let without_row = modal(vec![
        input("artist", Some("A")),
        input("name", Some("N")),
        input("release_date", Some("20200101")),
    ]);
    assert_eq!(ReleaseSubmission::from_modal_response(&without_row).unwrap().label, None);
}

#[test]
fn rows_may_come_in_any_order() {
    let rows = modal(vec![
        input("release_date", Some("19991231")),
        input("label", Some("L")),
        input("name", Some("N")),
        input("artist", Some("A")),
    ]);
    let s = ReleaseSubmission::from_modal_response(&rows).unwrap();
    assert_eq!((s.artist.as_str(), s.name.as_str()), ("A", "N"));
    assert_eq!(s.label.as_deref(), Some("L"));
    assert_eq!(ymd(&s), (1999, 12, 31));
}

#[test]
fn missing_fields_are_reported_in_order() {
    let no_artist = modal(vec![input("name", Some("N")), input("release_date", Some("x"))]);
    let e = ReleaseSubmission::from_modal_response(&no_artist).unwrap_err();
    assert_eq!(e, SubmissionError::MissingArtist);
    assert_eq!(e.message(), "Error getting 'Artist'");

    let no_name = modal(vec![input("artist", Some("A")), input("name", None)]);
    let e = ReleaseSubmission::from_modal_response(&no_name).unwrap_err();
    assert_eq!(e, SubmissionError::MissingAlbum);
    assert_eq!(e.message(), "Error getting 'Album'");

    let no_date = modal(vec![input("artist", Some("A")), input("name", Some("N"))]);
    let e = ReleaseSubmission::from_modal_response(&no_date).unwrap_err();
    assert_eq!(e, SubmissionError::MissingReleaseDate);
    assert_eq!(e.message(), "Error getting 'Release Date'");

    let empty = modal(vec![]);
    assert_eq!(
        ReleaseSubmission::from_modal_response(&empty).unwrap_err(),
        SubmissionError::MissingArtist
    );
}

#[test]
fn invalid_date_is_reported() {
    let e = ReleaseSubmission::from_modal_response(&full_form(None, "20230229")).unwrap_err();
    assert_eq!(e, SubmissionError::InvalidDate);
    assert_eq!(e.message(), "Invalid Date");
    let e = ReleaseSubmission::from_modal_response(&full_form(None, "2023-2-2")).unwrap_err();
    assert_eq!(e, SubmissionError::InvalidDate);
}

#[test]
fn first_typed_value_of_an_id_wins() {
    let rows = modal(vec![
        input("artist", None),
        input("artist", Some("First")),
        input("artist", Some("Second")),
        input("name", Some("N")),
        input("release_date", Some("20000101")),
    ]);
    assert_eq!(ReleaseSubmission::from_modal_response(&rows).unwrap().artist, "First");
}

#[test]
fn only_the_first_component_of_a_row_counts() {
    let hidden_artist = ActionRow {
        components: vec![
            ActionRowComponent::Other,
            ActionRowComponent::InputText(InputText {
                custom_id: "artist".to_string(),
                value: Some("Hidden".to_string()),
            }),
        ],
    };
    let rows = modal(vec![
        hidden_artist,
        ActionRow { components: vec![] },
        input("artist", Some("Shown")),
        input("name", Some("N")),
        input("release_date", Some("20000101")),
    ]);
    assert_eq!(ReleaseSubmission::from_modal_response(&rows).unwrap().artist, "Shown");

    let only_hidden = modal(vec![ActionRow {
        components: vec![
            ActionRowComponent::Other,
            ActionRowComponent::InputText(InputText {
                custom_id: "artist".to_string(),
                value: Some("Hidden".to_string()),
            }),
        ],
    }]);
    assert_eq!(
        ReleaseSubmission::from_modal_response(&only_hidden).unwrap_err(),
        SubmissionError::MissingArtist
    );
}

#[test]
fn default_submission_is_the_placeholder() {
    let s = ReleaseSubmission::default();
    assert_eq!(s.artist, "Artist Name");
    assert_eq!(s.name, "Release Title");
    assert_eq!(s.label, None);
    assert_eq!(ymd(&s), (0, 1, 1));
}

#[test]
fn builder_assembles_a_submission() {
    let s = ReleaseSubmissionBuilder::new()
        .name("Title".to_string())
        .label(Some("Label".to_string()))
        .artist("Artist".to_string())
        .release_date("20240615".to_string())
        .unwrap()
        .build()
        .unwrap();
    assert_eq!(s.artist, "Artist");
    assert_eq!(s.name, "Title");
    assert_eq!(s.label.as_deref(), Some("Label"));
    assert_eq!(ymd(&s), (2024, 6, 15));
}

#[test]
fn builder_label_can_be_cleared() {
    let s = ReleaseSubmissionBuilder::default()
        .label(Some("Label".to_string()))
        .label(None)
        .artist("A".to_string())
        .name("N".to_string())
        .release_date("20240615".to_string())
        .unwrap()
        .build()
        .unwrap();
    assert_eq!(s.label, None);
}

#[test]
fn builder_refuses_a_bad_date() {
    let r = ReleaseSubmissionBuilder::new()
        .artist("A".to_string())
        .release_date("2024061".to_string());
    assert!(matches!(r, Err(SubmissionError::InvalidDate)));
}

fn view(r: Result<ReleaseSubmission, SubmissionError>)
    -> Result<(String, String, Option<String>, (i32, u32, u32)), SubmissionError> {
    r.map(|s| {
        let d = (s.release_date.year(), s.release_date.month(), s.release_date.day());
        (s.artist, s.name, s.label, d)
    })
}

#[test]
fn removing_label_rows_only_clears_the_label() {
    let with_label = modal(vec![
        input("label", Some("First")),
        input("artist", Some("A")),
        input("label", None),
        input("name", Some("N")),
        input("label", Some("Second")),
        input("release_date", Some("20200101")),
    ]);
    let without_label = modal(vec![
        input("artist", Some("A")),
        input("name", Some("N")),
        input("release_date", Some("20200101")),
    ]);
    let full = view(ReleaseSubmission::from_modal_response(&with_label)).unwrap();
    let cleared = view(ReleaseSubmission::from_modal_response(&without_label)).unwrap();
    assert_eq!(full.2.as_deref(), Some("First"));
    assert_eq!(cleared, (full.0, full.1, None, full.3));

    let bad = modal(vec![input("label", Some("L")), input("name", Some("N"))]);
    let bad_cleared = modal(vec![input("name", Some("N"))]);
    assert_eq!(
        view(ReleaseSubmission::from_modal_response(&bad)),
        view(ReleaseSubmission::from_modal_response(&bad_cleared))
    );
}

#[test]
fn unwanted_rows_change_nothing() {
    let base = || {
        vec![
            input("artist", Some("A")),
            input("name", Some("N")),
            input("label", Some("L")),
            input("release_date", Some("20200101")),
        ]
    };
    let expected = view(ReleaseSubmission::from_modal_response(&modal(base())));
    let mut noisy = base();
    noisy.insert(0, ActionRow { components: vec![] });
    noisy.insert(2, input("artist", None));
    noisy.insert(3, input("comment", Some("ignored")));
    noisy.insert(5, ActionRow {
        components: vec![
            ActionRowComponent::Other,
            ActionRowComponent::InputText(InputText {
                custom_id: "name".to_string(),
                value: Some("Hidden".to_string()),
            }),
        ],
    });
    noisy.push(input("release_date", None));
    assert_eq!(view(ReleaseSubmission::from_modal_response(&modal(noisy))), expected);
}

#[test]
fn builder_calls_in_any_order_agree() {
    let a = || "A".to_string();
    let n = || "N".to_string();
    let l = || Some("L".to_string());
    let d = || "20240615".to_string();
    let expected = Ok(("A".to_string(), "N".to_string(), Some("L".to_string()), (2024, 6, 15)));
    let b = ReleaseSubmissionBuilder::new;
    let r1 = b().artist(a()).name(n()).label(l()).release_date(d()).unwrap().build();
    let r2 = b().release_date(d()).unwrap().label(l()).name(n()).artist(a()).build();
    let r3 = b().label(l()).artist(a()).release_date(d()).unwrap().name(n()).build();
    let r4 = b().name(n()).release_date(d()).unwrap().artist(a()).label(l()).build();
    let r5 = b().artist(a()).label(l()).release_date(d()).unwrap().name(n()).build();
    let r6 = b().name(n()).artist(a()).release_date(d()).unwrap().label(l()).build();
    for r in [r1, r2, r3, r4, r5, r6] {
        assert_eq!(view(r), expected);
    }
}
