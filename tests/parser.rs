use lumina::note_map::parser::{
    build_note_meta, count_words, extract_title, extract_title_from_path, extract_wikilinks,
    parse_heading_line, parse_markdown,
};

#[test]
fn test_parse_heading() {
    assert_eq!(parse_heading_line("# Hello"), Some((1, "Hello".to_string())));
    assert_eq!(parse_heading_line("## World"), Some((2, "World".to_string())));
    assert_eq!(parse_heading_line("### Test"), Some((3, "Test".to_string())));
    assert_eq!(parse_heading_line("Not a heading"), None);
    assert_eq!(parse_heading_line("#NoSpace"), None);
}

#[test]
fn test_extract_wikilinks() {
    let content = "This is a [[link]] and [[another|alias]] link.";
    let links = extract_wikilinks(content, "test.md");
    assert_eq!(links.len(), 2);
    assert_eq!(links[0].to_note, "link");
    assert_eq!(links[1].to_note, "another");
}

#[test]
fn test_count_words() {
    assert_eq!(count_words("Hello world"), 2);
    assert_eq!(count_words("你好世界"), 4);
    // "Hello" = 1, "你" = 1, "好" = 1, "world" = 1 = 4
    assert_eq!(count_words("Hello 你好 world"), 4);
}

#[test]
fn heading_edge_cases() {
    assert_eq!(parse_heading_line("  ####### Seven"), None);
    assert_eq!(parse_heading_line("###### Six  "), Some((6, "Six".to_string())));
    assert_eq!(parse_heading_line("#\tTab"), Some((1, "Tab".to_string())));
    assert_eq!(parse_heading_line("#   "), None);
    assert_eq!(parse_heading_line(""), None);
}

#[test]
fn words_split_on_digits_and_punctuation() {
    assert_eq!(count_words(""), 0);
    assert_eq!(count_words("a1b-c"), 3);
    assert_eq!(count_words("  "), 0);
}

#[test]
fn wikilinks_skip_malformed_and_keep_line_numbers() {
    let content = "[[a]]\n[[]] [[ b ]]\n[[c|]] [[d|e]]\n[[x\ny]]";
    let links = extract_wikilinks(content, "n.md");
    let got: Vec<(String, usize)> = links.iter().map(|l| (l.to_note.clone(), l.line)).collect();
    assert_eq!(
        got,
        vec![("a".to_string(), 1), ("b".to_string(), 2), ("d".to_string(), 3)]
    );
    assert!(links.iter().all(|l| l.from_path == "n.md"));
}

#[test]
fn sections_end_at_same_or_higher_heading() {
    let content = "# A\nword\n## B\nmore text\n# C\nend";
    let (tags, links) = parse_markdown(content, "p.md");
    assert!(links.is_empty());
    assert_eq!(tags.len(), 3);
    assert_eq!((tags[0].level, tags[0].line, tags[0].start_offset), (1, 1, 0));
    assert_eq!(tags[0].end_offset, 24);
    assert_eq!(tags[1].start_offset, 9);
    assert_eq!(tags[1].end_offset, 24);
    assert_eq!(tags[2].start_offset, 24);
    assert_eq!(tags[2].end_offset, content.len());
    // "A word B more text", "B more text" and "C end"
    assert_eq!(tags[0].word_count, 5);
    assert_eq!(tags[1].word_count, 3);
    assert_eq!(tags[2].word_count, 2);
    assert_eq!(tags[1].heading, "B");
}

#[test]
fn offsets_count_bytes() {
    let content = "你好\n# 标题\n正文";
    let (tags, _) = parse_markdown(content, "z.md");
    assert_eq!(tags.len(), 1);
    assert_eq!(tags[0].start_offset, 7);
    assert_eq!(tags[0].end_offset, content.len());
    assert_eq!(tags[0].word_count, 4);
}

#[test]
fn titles_come_from_first_top_heading_or_file_name() {
    assert_eq!(extract_title("## Sub\n# Top\n# Later", "x/y.md"), "Top");
    assert_eq!(extract_title("no heading", "dir/note.name.md"), "note.name");
    assert_eq!(extract_title_from_path("dir/plain"), "plain");
    assert_eq!(extract_title_from_path(""), "Untitled");
}

#[test]
fn note_meta_collects_everything() {
    let meta = build_note_meta("# T\nsee [[other]]", "notes/t.md", 42);
    assert_eq!(meta.path, "notes/t.md");
    assert_eq!(meta.title, "T");
    assert_eq!(meta.tags.len(), 1);
    assert_eq!(meta.outlinks.len(), 1);
    assert_eq!(meta.outlinks[0].to_note, "other");
    assert_eq!(meta.outlinks[0].line, 2);
    assert_eq!(meta.inlink_count, 0);
    assert_eq!(meta.word_count, 3);
    assert_eq!(meta.mtime, 42);
}
