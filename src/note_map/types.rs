use vstd::prelude::*;

verus! {

/// A heading of a note and the section it opens.
#[derive(Debug, Clone)]
pub struct NoteTag {
    /// Path of the note, relative to the workspace.
    pub path: String,
    /// Heading text.
    pub heading: String,
    /// Heading level, 1 to 6 (`#` is 1).
    pub level: u8,
    /// Line of the heading, counted from 1.
    pub line: usize,
    /// Byte offset where the section starts.
    pub start_offset: usize,
    /// Byte offset where the section ends: the next heading of the same or a
    /// higher level, or the end of the note.
    pub end_offset: usize,
    /// Words in the section.
    pub word_count: usize,
}

/// A wiki link `[[target]]` or `[[target|alias]]`.
#[derive(Debug, Clone)]
pub struct NoteLink {
    pub from_path: String,
    /// The linked note's name.
    pub to_note: String,
    /// Line of the link, counted from 1.
    pub line: usize,
}

/// What the note map knows of one note.
#[derive(Debug, Clone)]
pub struct NoteMeta {
    pub path: String,
    /// The first level-one heading, else the file name without extension.
    pub title: String,
    pub tags: Vec<NoteTag>,
    pub outlinks: Vec<NoteLink>,
    /// Links from other notes; filled in when notes are ranked.
    pub inlink_count: usize,
    pub word_count: usize,
    /// Modification time of the file.
    pub mtime: u64,
}

/// Settings of the rendered note map.
#[derive(Debug, Clone)]
pub struct NoteMapConfig {
    pub max_tokens: usize,
    pub show_word_count: bool,
    /// Deepest heading level shown, 1 to 6.
    pub max_heading_depth: u8,
}

impl Default for NoteMapConfig {
    fn default() -> (r: Self)
        ensures
            r.max_tokens == 1024,
            r.show_word_count,
            r.max_heading_depth == 3,
    {
        NoteMapConfig { max_tokens: 1024, show_word_count: true, max_heading_depth: 3 }
    }
}

} // verus!
