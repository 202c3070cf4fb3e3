use audio_library::models::{
    copy_entries, describe, find_entry, find_position, remove_entry, AudioEntry,
};
use serde_json::Value;

#[test]
fn entries_compare_by_value() {
    let a = AudioEntry::new(1, "Meditation", "/tmp/a.mp3");
    let b = AudioEntry::new(1, "Meditation", "/tmp/a.mp3");
    assert_eq!(a, b);
}

#[test]
fn entries_differ_in_any_field() {
    let a = AudioEntry::new(1, "Meditation", "/tmp/a.mp3");
    assert_ne!(a, AudioEntry::new(2, "Meditation", "/tmp/a.mp3"));
    assert_ne!(a, AudioEntry::new(1, "Lecture", "/tmp/a.mp3"));
    assert_ne!(a, AudioEntry::new(1, "Meditation", "/tmp/b.mp3"));
    let mut later = a.clone();
    later.created_at = "2024-01-01".to_string();
    assert_ne!(a, later);
}

#[test]
fn new_entries_have_no_creation_day() {
    let entry = AudioEntry::new(7, "Talk", "/tmp/talk.mp3");
    assert_eq!(entry.id, 7);
    assert_eq!(entry.title, "Talk");
    assert_eq!(entry.file_path, "/tmp/talk.mp3");
    assert_eq!(entry.created_at, "");
}

fn to_json(entry: &AudioEntry) -> Value {
    let mut object = serde_json::Map::new();
    object.insert("id".to_string(), Value::from(entry.id));
    object.insert("title".to_string(), Value::from(entry.title.as_str()));
    object.insert("file_path".to_string(), Value::from(entry.file_path.as_str()));
    object.insert("created_at".to_string(), Value::from(entry.created_at.as_str()));
    Value::Object(object)
}

fn from_json(value: &Value) -> AudioEntry {
    AudioEntry {
        id: value["id"].as_i64().unwrap(),
        title: value["title"].as_str().unwrap().to_string(),
        file_path: value["file_path"].as_str().unwrap().to_string(),
        created_at: value["created_at"].as_str().unwrap().to_string(),
    }
}

#[test]
fn entries_round_trip_through_serde_json() {
    let entry = AudioEntry::new(1, "Lecture 1", "/tmp/l1.mp3");
    let json = serde_json::to_string(&to_json(&entry)).unwrap();
    let back: Value = serde_json::from_str(&json).unwrap();
    assert_eq!(entry, from_json(&back));
}

fn three() -> Vec<AudioEntry> {
    vec![
        AudioEntry::new(3, "C", "/c.mp3"),
        AudioEntry::new(1, "A", "/a.mp3"),
        AudioEntry::new(3, "C again", "/c2.mp3"),
    ]
}

#[test]
fn the_first_entry_with_an_id_is_found() {
    let entries = three();
    assert_eq!(find_position(&entries, 3), Some(0));
    assert_eq!(find_position(&entries, 1), Some(1));
    assert_eq!(find_position(&entries, 2), None);
    assert_eq!(find_entry(&entries, 3).unwrap().title, "C");
    assert!(find_entry(&entries, 9).is_none());
    assert_eq!(find_position(&Vec::new(), 3), None);
}

#[test]
fn removing_keeps_the_order_of_the_others() {
    let entries = three();
    assert_eq!(remove_entry(&entries, 3), vec![AudioEntry::new(1, "A", "/a.mp3")]);
    assert_eq!(remove_entry(&entries, 8), entries);
    assert_eq!(copy_entries(&entries), entries);
}

#[test]
fn entries_are_described_like_their_debug_text() {
    let mut entry = AudioEntry::new(-4, "say \"hi\"\\", "/tmp/tab\t\u{1f3b5}.mp3");
    entry.created_at = "2024-05-06".to_string();
    assert_eq!(entry.debug_text(), format!("{:?}", entry));
    assert_eq!(
        AudioEntry::new(1, "A", "/a").debug_text(),
        "AudioEntry { id: 1, title: \"A\", file_path: \"/a\", created_at: \"\" }"
    );
    assert_eq!(
        describe(2, "<t>", "<p>", "<c>"),
        "AudioEntry { id: 2, title: <t>, file_path: <p>, created_at: <c> }"
    );
}
