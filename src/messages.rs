//! Layered chat prompts: the system prompt, injected note context, history,
//! the current task, tool results and a reminder, assembled in that order.

use vstd::prelude::*;
use crate::text::{chars_of, decimal, decimal_padded, line_ranges, lines, pad_left, substring};

verus! {

#[derive(Debug, Clone, Copy, PartialEq, Eq, Structural)]
pub enum MessageRole {
    System,
    User,
    Assistant,
    Tool,
}

#[derive(Debug)]
pub struct Message {
    pub role: MessageRole,
    pub content: String,
    pub name: Option<String>,
    pub tool_call_id: Option<String>,
}

impl Clone for Message {
    fn clone(&self) -> (r: Self)
        ensures
            r == *self,
    {
        Message {
            role: self.role,
            content: self.content.clone(),
            name: match &self.name {
                Some(n) => Some(n.clone()),
                None => None,
            },
            tool_call_id: match &self.tool_call_id {
                Some(t) => Some(t.clone()),
                None => None,
            },
        }
    }
}

/// A prompt in layers.
#[derive(Debug)]
pub struct ChatChunks {
    /// Identity, rules and standing reminders.
    pub system: String,
    /// Summary of the note collection's structure.
    pub note_map: Option<String>,
    pub current_note_path: Option<String>,
    pub current_note_content: Option<String>,
    pub history: Vec<Message>,
    pub current_task: String,
    /// Results of the tools run in this turn.
    pub tool_results: Vec<String>,
    /// Reminder added after a failed edit.
    pub reminder: Option<String>,
}

/// Standing reminder on editing, for the end of the system prompt.
pub const FORMAT_REMINDER: &'static str = "\n重要提醒：\n1. 使用 edit_note 时，old_string 必须与文件内容完全匹配（包括空格和换行）\n2. 编辑前建议先 read_note 或 read_section 获取最新内容\n3. 如果编辑失败，请重新读取文件后再试\n";

pub const NOTE_MAP_INTRO: &'static str = "以下是笔记库的结构摘要，请先了解。如需查看具体内容，请使用工具。\n\n";

pub const NOTE_MAP_ACK: &'static str = "好的，我已了解笔记库结构。需要查看或编辑具体内容时，我会使用相应工具。";

pub const CURRENT_NOTE_INTRO: &'static str = "当前正在编辑的笔记（你可以直接使用 edit_note 编辑）：\n\n文件：";

pub const CURRENT_NOTE_ACK: &'static str = "好的，我看到了当前笔记的完整内容。";

pub const TOOL_RESULT_HEAD: &'static str = "[工具执行结果]\n";

pub const REMINDER_HEAD: &'static str = "[系统提醒] ";

pub const EDIT_FAILED_REMINDER: &'static str = "上次编辑失败（找不到要替换的内容）。请先使用 read_note 获取最新内容，确保 old_string 完全匹配后再尝试编辑。";

/// A message of the given role and content, with no name or tool call.
pub open spec fn plain(role: MessageRole, content: Seq<char>) -> (MessageRole, Seq<char>, Option<Seq<char>>, Option<Seq<char>>) {
    (role, content, None, None)
}

pub open spec fn opt_chars(o: Option<String>) -> Option<Seq<char>> {
    match o {
        Some(s) => Some(s@),
        None => None,
    }
}

/// A message as role, content, name and tool call id.
pub open spec fn message_view(m: Message) -> (MessageRole, Seq<char>, Option<Seq<char>>, Option<Seq<char>>) {
    (m.role, m.content@, opt_chars(m.name), opt_chars(m.tool_call_id))
}

/// Line `k` (from 1) of a numbered listing: the number right-aligned in four
/// columns, a bar, then the line.
pub open spec fn numbered_line(s: Seq<char>, k: nat) -> Seq<char> {
    let r = line_ranges(s)[k - 1];
    pad_left(decimal(k), 4) + " | "@ + s.subrange(r.0 as int, r.1 as int)
}

/// The first `k` lines of `s`, numbered and joined by newlines.
pub open spec fn numbered_fold(s: Seq<char>, k: nat) -> Seq<char>
    decreases k,
{
    if k == 0 {
        seq![]
    } else if k == 1 {
        numbered_line(s, 1)
    } else {
        numbered_fold(s, (k - 1) as nat) + "\n"@ + numbered_line(s, k)
    }
}

/// All lines of `s`, numbered.
pub open spec fn numbered(s: Seq<char>) -> Seq<char> {
    numbered_fold(s, line_ranges(s).len())
}

/// The messages that `to_messages` yields for `c`.
pub open spec fn messages_spec(c: ChatChunks) -> Seq<(MessageRole, Seq<char>, Option<Seq<char>>, Option<Seq<char>>)> {
    seq![plain(MessageRole::System, c.system@)] + (match c.note_map {
        Some(nm) => seq![
            plain(MessageRole::User, NOTE_MAP_INTRO@ + nm@),
            plain(MessageRole::Assistant, NOTE_MAP_ACK@),
        ],
        None => seq![],
    }) + (match (c.current_note_path, c.current_note_content) {
        (Some(p), Some(body)) => seq![
            plain(
                MessageRole::User,
                CURRENT_NOTE_INTRO@ + p@ + "\n---\n"@ + numbered(body@) + "\n---"@,
            ),
            plain(MessageRole::Assistant, CURRENT_NOTE_ACK@),
        ],
        _ => seq![],
    }) + Seq::new(c.history@.len(), |i: int| message_view(c.history@[i])) + seq![
        plain(MessageRole::User, c.current_task@),
    ] + Seq::new(
        c.tool_results@.len(),
        |i: int| plain(MessageRole::User, TOOL_RESULT_HEAD@ + c.tool_results@[i]@),
    ) + match c.reminder {
        Some(r) => seq![plain(MessageRole::User, REMINDER_HEAD@ + r@)],
        None => seq![],
    }
}

fn plain_message(role: MessageRole, content: String) -> (m: Message)
    ensures
        message_view(m) == plain(role, content@),
{
    Message { role, content, name: None, tool_call_id: None }
}

fn concat(a: &str, b: &str) -> (r: String)
    ensures
        r@ == a@ + b@,
{
    let mut r = String::from_str(a);
    r.append(b);
    r
}

/// `content` with each line numbered, joined by newlines.
fn number_lines(content: &str) -> (r: String)
    ensures
        r@ == numbered(content@),
{
    let s = chars_of(content);
    let ranges = lines(&s);
    let mut out = String::new();
    let mut k: usize = 0;
    while k < ranges.len()
        invariant
            k <= ranges@.len(),
            ranges@ == line_ranges(s@),
            s@ == content@,
            forall|j: int| 0 <= j < ranges@.len() ==> #[trigger] ranges@[j].0 <= ranges@[j].1 <= s@.len(),
            out@ == numbered_fold(s@, k as nat),
        decreases ranges@.len() - k,
    {
        let (from, to) = ranges[k];
        if k > 0 {
            out.append("\n");
        }
        let num = decimal_padded(k + 1, 4);
        out.append(num.as_str());
        out.append(" | ");
        let line = substring(&s, from, to);
        out.append(line.as_str());
        proof {
            let next = numbered_fold(s@, (k + 1) as nat);
            if k == 0 {
                assert(out@ =~= next);
            } else {
                assert(out@ =~= next);
            }
        }
        k = k + 1;
    }
    out
}

impl ChatChunks {
    pub fn new(system: String) -> (r: Self)
        ensures
            r.system == system,
            r.note_map is None,
            r.current_note_path is None,
            r.current_note_content is None,
            r.history@.len() == 0,
            r.current_task@.len() == 0,
            r.tool_results@.len() == 0,
            r.reminder is None,
    {
        ChatChunks {
            system,
            note_map: None,
            current_note_path: None,
            current_note_content: None,
            history: Vec::new(),
            current_task: String::new(),
            tool_results: Vec::new(),
            reminder: None,
        }
    }

    pub fn with_note_map(self, note_map: String) -> (r: Self)
        ensures
            r == (ChatChunks { note_map: Some(note_map), ..self }),
    {
        ChatChunks { note_map: Some(note_map), ..self }
    }

    pub fn with_current_note(self, path: String, content: String) -> (r: Self)
        ensures
            r == (ChatChunks {
                current_note_path: Some(path),
                current_note_content: Some(content),
                ..self
            }),
    {
        ChatChunks { current_note_path: Some(path), current_note_content: Some(content), ..self }
    }

    pub fn with_history(self, history: Vec<Message>) -> (r: Self)
        ensures
            r == (ChatChunks { history, ..self }),
    {
        ChatChunks { history, ..self }
    }

    pub fn with_task(self, task: String) -> (r: Self)
        ensures
            r == (ChatChunks { current_task: task, ..self }),
    {
        ChatChunks { current_task: task, ..self }
    }

    pub fn add_tool_result(&mut self, result: String)
        ensures
            final(self).tool_results@ == old(self).tool_results@.push(result),
            final(self).system == old(self).system,
            final(self).note_map == old(self).note_map,
            final(self).current_note_path == old(self).current_note_path,
            final(self).current_note_content == old(self).current_note_content,
            final(self).history == old(self).history,
            final(self).current_task == old(self).current_task,
            final(self).reminder == old(self).reminder,
    {
        self.tool_results.push(result);
    }

    pub fn with_reminder(self, reminder: String) -> (r: Self)
        ensures
            r == (ChatChunks { reminder: Some(reminder), ..self }),
    {
        ChatChunks { reminder: Some(reminder), ..self }
    }

    /// The messages in order: system; the note map and its acknowledgement;
    /// the current note, numbered line by line, and its acknowledgement; the
    /// history; the task; each tool result; the reminder.
    pub fn to_messages(&self) -> (r: Vec<Message>)
        ensures
            views(r@) == messages_spec(*self),
    {
        let mut messages: Vec<Message> = Vec::new();
        push_plain(&mut messages, MessageRole::System, self.system.clone());
        assert(views(messages@) =~= seq![plain(MessageRole::System, self.system@)]);
        let ghost after_system = views(messages@);
        match &self.note_map {
            Some(note_map) => {
                push_plain(&mut messages, MessageRole::User, concat(NOTE_MAP_INTRO, note_map.as_str()));
                push_plain(&mut messages, MessageRole::Assistant, String::from_str(NOTE_MAP_ACK));
            },
            None => {},
        }
        let ghost after_map = views(messages@);
        assert(after_map =~= after_system + match self.note_map {
            Some(nm) => seq![
                plain(MessageRole::User, NOTE_MAP_INTRO@ + nm@),
                plain(MessageRole::Assistant, NOTE_MAP_ACK@),
            ],
            None => seq![],
        });
        match (&self.current_note_path, &self.current_note_content) {
            (Some(path), Some(content)) => {
                let numbered = number_lines(content.as_str());
                let mut body = concat(CURRENT_NOTE_INTRO, path.as_str());
                body.append("\n---\n");
                body.append(numbered.as_str());
                body.append("\n---");
                push_plain(&mut messages, MessageRole::User, body);
                push_plain(&mut messages, MessageRole::Assistant, String::from_str(CURRENT_NOTE_ACK));
            },
            _ => {},
        }
        let ghost after_note = views(messages@);
        assert(after_note =~= after_map + match (self.current_note_path, self.current_note_content) {
            (Some(p), Some(body)) => seq![
                plain(
                    MessageRole::User,
                    CURRENT_NOTE_INTRO@ + p@ + "\n---\n"@ + numbered(body@) + "\n---"@,
                ),
                plain(MessageRole::Assistant, CURRENT_NOTE_ACK@),
            ],
            _ => seq![],
        });
        let mut i: usize = 0;
        while i < self.history.len()
            invariant
                i <= self.history@.len(),
                views(messages@) == after_note + Seq::new(i as nat, |j: int| message_view(self.history@[j])),
            decreases self.history@.len() - i,
        {
            let m = self.history[i].clone();
            let ghost before = messages@;
            let ghost mv = message_view(m);
            assert(mv == message_view(self.history@[i as int]));
            messages.push(m);
            assert(views(messages@) =~= views(before).push(mv));
            assert(views(messages@) =~= after_note + Seq::new((i + 1) as nat, |j: int| message_view(self.history@[j])));
            i = i + 1;
        }
        let ghost after_history = views(messages@);
        push_plain(&mut messages, MessageRole::User, self.current_task.clone());
        let ghost after_task = views(messages@);
        assert(after_task =~= after_history + seq![plain(MessageRole::User, self.current_task@)]);
        let mut k: usize = 0;
        while k < self.tool_results.len()
            invariant
                k <= self.tool_results@.len(),
                views(messages@) == after_task + Seq::new(
                    k as nat,
                    |j: int| plain(MessageRole::User, TOOL_RESULT_HEAD@ + self.tool_results@[j]@),
                ),
            decreases self.tool_results@.len() - k,
        {
            push_plain(&mut messages, MessageRole::User, concat(TOOL_RESULT_HEAD, self.tool_results[k].as_str()));
            assert(views(messages@) =~= after_task + Seq::new(
                (k + 1) as nat,
                |j: int| plain(MessageRole::User, TOOL_RESULT_HEAD@ + self.tool_results@[j]@),
            ));
            k = k + 1;
        }
        let ghost after_results = views(messages@);
        match &self.reminder {
            Some(reminder) => {
                push_plain(&mut messages, MessageRole::User, concat(REMINDER_HEAD, reminder.as_str()));
            },
            None => {},
        }
        assert(views(messages@) =~= after_results + match self.reminder {
            Some(r) => seq![plain(MessageRole::User, REMINDER_HEAD@ + r@)],
            None => seq![],
        });
        assert(views(messages@) =~= messages_spec(*self));
        messages
    }
}

/// Views of a list of messages.
pub open spec fn views(ms: Seq<Message>) -> Seq<(MessageRole, Seq<char>, Option<Seq<char>>, Option<Seq<char>>)> {
    Seq::new(ms.len(), |i: int| message_view(ms[i]))
}

fn push_plain(ms: &mut Vec<Message>, role: MessageRole, content: String)
    ensures
        views(final(ms)@) == views(old(ms)@).push(plain(role, content@)),
{
    let m = plain_message(role, content);
    ms.push(m);
    assert(views(ms@) =~= views(old(ms)@).push(plain(role, content@)));
}

/// Whether `s` holds `pat` as a contiguous part.
pub open spec fn contains_seq(s: Seq<char>, pat: Seq<char>) -> bool {
    exists|i: int| 0 <= i && i + pat.len() <= s.len() && #[trigger] s.subrange(i, i + pat.len()) == pat
}

fn contains_str(s: &str, pat: &str) -> (r: bool)
    ensures
        r == contains_seq(s@, pat@),
{
    let a = chars_of(s);
    let b = chars_of(pat);
    let n = a.len();
    let m = b.len();
    if m > n {
        proof {
            assert forall|i: int| 0 <= i && i + m <= n implies #[trigger] a@.subrange(i, i + m) != b@ by {}
        }
        return false;
    }
    let mut i: usize = 0;
    while i <= n - m
        invariant
            m <= n,
            n == a@.len(),
            m == b@.len(),
            a@ == s@,
            b@ == pat@,
            forall|k: int| 0 <= k < i ==> #[trigger] a@.subrange(k, k + m) != b@,
        decreases n - m + 1 - i,
    {
        let mut j: usize = 0;
        while j < m && a[i + j] == b[j]
            invariant
                i <= n - m,
                m <= n,
                n == a@.len(),
                m == b@.len(),
                j <= m,
                forall|t: int| 0 <= t < j ==> a@[i + t] == b@[t],
            decreases m - j,
        {
            j = j + 1;
        }
        if j == m {
            assert(a@.subrange(i as int, i + m) =~= b@);
            return true;
        }
        assert(a@.subrange(i as int, i + m)[j as int] != b@[j as int]);
        i = i + 1;
    }
    false
}

/// The reminder after a failed edit: one when the error says the text to
/// replace was not found.
pub open spec fn reminder_spec(last_error: Option<Seq<char>>) -> Option<Seq<char>> {
    match last_error {
        Some(e) => if contains_seq(e, "old_string not found"@) || contains_seq(e, "not found in file"@) {
            Some(EDIT_FAILED_REMINDER@)
        } else {
            None
        },
        None => None,
    }
}

/// A reminder to add when the last edit failed for want of a match.
pub fn detect_reminder_needed(last_error: Option<&str>) -> (r: Option<String>)
    ensures
        opt_chars(r) == reminder_spec(match last_error {
            Some(e) => Some(e@),
            None => None,
        }),
{
    match last_error {
        Some(error) => {
            if contains_str(error, "old_string not found") || contains_str(error, "not found in file") {
                Some(String::from_str(EDIT_FAILED_REMINDER))
            } else {
                None
            }
        },
        None => None,
    }
}

} // verus!
