use sticky_notes::ids::{
    generate_id, generate_model_id, id_alphabet, model_id, note_id_for_upsert, timestamp_for_upsert,
    upsert_timestamp,
};
use sticky_notes::models::{model_from_tag, ModelTagError, ModelType, Note, NoteIden, Timestamp};
use sticky_notes::AppState;

fn is_id_char(c: char) -> bool {
    ('2'..='9').contains(&c)
        || (c.is_ascii_lowercase() && c != 'l')
        || (c.is_ascii_uppercase() && c != 'I' && c != 'O')
}

#[test]
fn new_note_holds_only_content() {
    let n = Note::new("hello".to_string());
    assert_eq!(n.content, "hello");
    assert_eq!(n.id, "");
    assert_eq!(n.model, "");
    assert_eq!(n.created_at, Timestamp { secs: 0, nanos: 0 });
    assert_eq!(n.updated_at, Timestamp::epoch());
}

#[test]
fn note_prefix_is_note() {
    assert_eq!(ModelType::TypeNote.id_prefix(), "note");
}

#[test]
fn note_columns_have_sql_names() {
    assert_eq!(NoteIden::Table.name(), "notes");
    assert_eq!(NoteIden::Model.name(), "model");
    assert_eq!(NoteIden::Id.name(), "id");
    assert_eq!(NoteIden::CreatedAt.name(), "created_at");
    assert_eq!(NoteIden::UpdatedAt.name(), "updated_at");
    assert_eq!(NoteIden::Content.name(), "content");
}

#[test]
fn model_tags_are_recognised() {
    assert!(matches!(model_from_tag(Some("note")), Ok(ModelType::TypeNote)));
    assert!(matches!(model_from_tag(Some("folder")), Err(ModelTagError::Unknown(ref t)) if t == "folder"));
    assert!(matches!(model_from_tag(Some("Note")), Err(ModelTagError::Unknown(_))));
    assert!(matches!(model_from_tag(Some("")), Err(ModelTagError::Unknown(_))));
    assert!(matches!(model_from_tag(None), Err(ModelTagError::Missing)));
}

#[test]
fn alphabet_has_no_ambiguous_characters() {
    let a = id_alphabet();
    assert_eq!(a.len(), 57);
    assert!(a.iter().all(|c| is_id_char(*c)));
    for c in ['0', '1', 'l', 'I', 'O'] {
        assert!(!a.contains(&c));
    }
}

#[test]
fn generated_ids_are_ten_alphabet_characters() {
    for _ in 0..20 {
        let id = generate_id();
        assert_eq!(id.chars().count(), 10);
        assert!(id.chars().all(is_id_char));
    }
}

#[test]
fn model_ids_join_prefix_and_random_part() {
    assert_eq!(model_id(ModelType::TypeNote, "abc"), "note_abc");
    let id = generate_model_id(ModelType::TypeNote);
    assert_eq!(id.len(), 15);
    assert!(id.starts_with("note_"));
    assert!(id[5..].chars().all(is_id_char));
}

#[test]
fn upsert_keeps_existing_id_and_fills_missing_one() {
    assert_eq!(note_id_for_upsert("note_kept".to_string()), "note_kept");
    let fresh = note_id_for_upsert(String::new());
    assert!(fresh.starts_with("note_"));
    assert_eq!(fresh.len(), 15);
}

#[test]
fn unset_timestamps_take_the_current_time() {
    let now = Timestamp { secs: 1_700_000_000, nanos: 5 };
    let set = Timestamp { secs: 42, nanos: 7 };
    assert_eq!(upsert_timestamp(Timestamp::epoch(), now), now);
    assert_eq!(upsert_timestamp(Timestamp { secs: 0, nanos: 999 }, now), now);
    assert_eq!(upsert_timestamp(set, now), set);
    assert_eq!(timestamp_for_upsert(set), set);
    assert!(timestamp_for_upsert(Timestamp::epoch()).secs > 1_600_000_000);
}

#[test]
fn app_state_defaults() {
    let _s: AppState = AppState::default();
}
