use workxgoam::transcripts::{DirEntryInfo, TranscriptionFiles};

fn entry(name: &str, is_file: bool, modified: Option<i128>) -> DirEntryInfo {
    DirEntryInfo { path: format!("/out/{}", name), file_name: name.to_string(), is_file, modified }
}

#[test]
fn splits_and_orders_newest_first() {
    let entries = vec![
        entry("a.txt", true, Some(10)),
        entry("b_EN.txt", true, Some(30)),
        entry("c.txt", true, Some(30)),
        entry("d_EN.txt", true, Some(5)),
        entry("e.txt", true, Some(-7)),
        entry("f.txt", true, Some(30)),
    ];
    let t = TranscriptionFiles::from_entries(&entries);
    assert_eq!(t.original, vec!["/out/c.txt", "/out/f.txt", "/out/a.txt", "/out/e.txt"]);
    assert_eq!(t.english, vec!["/out/b_EN.txt", "/out/d_EN.txt"]);
}

#[test]
fn skips_what_is_not_a_transcript() {
    let entries = vec![
        entry("record.wav", true, Some(1)),
        entry(".txt", true, Some(1)),
        entry("notes.txt", false, Some(1)),
        entry("x.txt", true, None),
        entry("y.TXT", true, Some(1)),
        entry("z.txt.bak", true, Some(1)),
        entry("_EN.txt", true, Some(2)),
        entry("k.txt", true, Some(3)),
    ];
    let t = TranscriptionFiles::from_entries(&entries);
    assert_eq!(t.original, vec!["/out/k.txt"]);
    assert_eq!(t.english, vec!["/out/_EN.txt"]);
}

#[test]
fn empty_directory_gives_empty_lists() {
    let t = TranscriptionFiles::from_entries(&Vec::new());
    assert!(t.original.is_empty());
    assert!(t.english.is_empty());
}
