use lumina::note_map::parser::build_note_meta;
use lumina::note_map::ranking::{extract_mentioned_notes, update_inlink_counts};

#[test]
fn test_extract_mentioned_notes() {
    let msg = "请看看 [[日记]] 和 notes.md 的内容";
    let mentions = extract_mentioned_notes(msg);
    assert!(mentions.contains(&"日记".to_string()));
    assert!(mentions.contains(&"notes".to_string()));
}

#[test]
fn mentions_keep_order_and_blank_links() {
    let m = extract_mentioned_notes("[[ a |x]] [[ ]] see b-1.md and c.mdx, .md, 日志.md");
    assert_eq!(
        m,
        vec!["a".to_string(), "".to_string(), "b-1".to_string(), "c".to_string(), "日志".to_string()]
    );
}

#[test]
fn wiki_links_may_span_lines_in_a_message() {
    let m = extract_mentioned_notes("[[two\nlines]]");
    assert_eq!(m, vec!["two\nlines".to_string()]);
}

#[test]
fn inlinks_match_file_names_case_insensitively() {
    let mut notes = vec![
        build_note_meta("[[Beta]] [[beta]] [[missing]]", "dir/alpha.md", 1),
        build_note_meta("[[ALPHA]] [[self]]", "beta.md", 2),
        build_note_meta("[[alpha]]", "x/Self.md", 3),
    ];
    update_inlink_counts(&mut notes);
    assert_eq!(notes[0].inlink_count, 2);
    assert_eq!(notes[1].inlink_count, 2);
    assert_eq!(notes[2].inlink_count, 1);
    assert_eq!(notes[2].mtime, 3);
    assert_eq!(notes[1].path, "beta.md");
}

#[test]
fn last_note_with_a_name_receives_the_link() {
    let mut notes = vec![
        build_note_meta("", "a/dup.md", 0),
        build_note_meta("", "b/dup.md", 0),
        build_note_meta("[[dup]]", "c.md", 0),
    ];
    update_inlink_counts(&mut notes);
    assert_eq!(notes[0].inlink_count, 0);
    assert_eq!(notes[1].inlink_count, 1);
}
