//! The recent log lines: how a line reads, and the ring that keeps the newest of them.
use std::collections::VecDeque;
use vstd::prelude::*;

use crate::json::{
    json_entry, new_object, no_entries, object_value, put_texts, texts_view, JsonEntry,
};
use crate::text::{
    chars_of, law_two_digits, same_text, text_from, two_digit_text, two_digits,
};

verus! {

/// The last `count` of `lines`, or all where there are fewer.
pub open spec fn newest<T>(lines: Seq<T>, count: nat) -> Seq<T> {
    if count < lines.len() {
        lines.skip(lines.len() - count)
    } else {
        lines
    }
}

/// The number of lines that are kept for a configured capacity: at least one.
pub open spec fn line_capacity(capacity: nat) -> nat {
    if capacity == 0 {
        1
    } else {
        capacity
    }
}

/// A ring of the most recent log lines.
#[derive(Debug)]
pub struct LogBuffer {
    lines: VecDeque<String>,
    capacity: usize,
}

/// What a [`LogBuffer`] holds, oldest line first.
pub struct LogBufferView {
    pub lines: Seq<String>,
    pub capacity: nat,
}

impl View for LogBuffer {
    type V = LogBufferView;

    closed spec fn view(&self) -> LogBufferView {
        LogBufferView { lines: self.lines@, capacity: self.capacity as nat }
    }
}

impl LogBuffer {
    /// There is room for at least one line, and there are no more lines than there is room for.
    pub open spec fn wf(&self) -> bool {
        &&& self@.capacity >= 1
        &&& self@.lines.len() <= self@.capacity
    }

    /// An empty ring for `capacity` lines, at least one.
    #[must_use]
    pub fn new(capacity: usize) -> (buffer: Self)
        ensures
            buffer.wf(),
            buffer@ == (LogBufferView {
                lines: Seq::empty(),
                capacity: line_capacity(capacity as nat),
            }),
    {
        let room: usize = if capacity == 0 {
            1
        } else {
            capacity
        };
        LogBuffer { lines: VecDeque::new(), capacity: room }
    }

    /// Changes the capacity, and drops the oldest lines that it leaves no room for.
    pub fn set_capacity(&mut self, capacity: usize)
        requires
            old(self).wf(),
        ensures
            final(self).wf(),
            final(self)@ == (LogBufferView {
                lines: newest(old(self)@.lines, line_capacity(capacity as nat)),
                capacity: line_capacity(capacity as nat),
            }),
    {
        let room: usize = if capacity == 0 {
            1
        } else {
            capacity
        };
        self.capacity = room;
        let ghost all = self.lines@;
        assert(all.skip(0) == all);
        while self.lines.len() > self.capacity
            invariant
                self.capacity == room,
                room >= 1,
                self.lines@.len() <= all.len(),
                self.lines@ == all.skip(all.len() - self.lines@.len()),
                self.lines@.len() < all.len() ==> self.lines@.len() >= room,
            decreases self.lines@.len(),
        {
            self.lines.pop_front();
            assert(self.lines@ =~= all.skip(all.len() - self.lines@.len()));
        }
    }

    /// Adds a line, in place of the oldest one where there is no room.
    pub fn push(&mut self, line: String)
        requires
            old(self).wf(),
        ensures
            final(self).wf(),
            final(self)@ == (LogBufferView {
                lines: newest(old(self)@.lines.push(line), old(self)@.capacity),
                capacity: old(self)@.capacity,
            }),
    {
        if self.lines.len() >= self.capacity {
            self.lines.pop_front();
        }
        self.lines.push_back(line);
        assert(self.lines@ =~= newest(old(self)@.lines.push(line), old(self)@.capacity));
    }

    /// The lines, oldest first: the newest `limit` of them, or all.
    #[must_use]
    pub fn snapshot(&self, limit: Option<usize>) -> (lines: Vec<String>)
        ensures
            lines@ == match limit {
                Some(count) => newest(self@.lines, count as nat),
                None => self@.lines,
            },
    {
        let n: usize = self.lines.len();
        let start: usize = match limit {
            Some(count) => if count < n {
                n - count
            } else {
                0
            },
            None => 0,
        };
        let mut lines: Vec<String> = Vec::new();
        let mut i: usize = start;
        while i < n
            invariant
                start <= i <= n,
                n == self.lines@.len(),
                lines@ == self.lines@.subrange(start as int, i as int),
            decreases n - i,
        {
            lines.push(self.lines[i].clone());
            i = i + 1;
        }
        assert(lines@ =~= self.lines@.skip(start as int));
        lines
    }
}

/// The lines of a ring of `capacity` after each of `pushed` was added to an empty one.
pub open spec fn lines_after(pushed: Seq<String>, capacity: nat) -> Seq<String>
    decreases pushed.len(),
{
    if pushed.len() == 0 {
        Seq::empty()
    } else {
        newest(lines_after(pushed.drop_last(), capacity).push(pushed.last()), capacity)
    }
}

/// The ring holds the newest lines, in the order in which they were added, and never more than its
/// capacity.
pub proof fn law_ring_keeps_newest(pushed: Seq<String>, capacity: nat)
    requires
        capacity >= 1,
    ensures
        lines_after(pushed, capacity) == newest(pushed, capacity),
        lines_after(pushed, capacity).len() <= capacity,
    decreases pushed.len(),
{
    if pushed.len() > 0 {
        law_ring_keeps_newest(pushed.drop_last(), capacity);
        assert(lines_after(pushed, capacity) =~= newest(pushed, capacity));
    }
}

/// The log object: the lines, under one key.
pub open spec fn log_entries(lines: Seq<String>) -> Map<Seq<char>, JsonEntry> {
    no_entries().insert("lines"@, JsonEntry::Texts(texts_view(lines)))
}

/// Builds the log object for the dashboard.
pub fn logs_json(lines: Vec<String>) -> (logs: serde_json::Value)
    ensures
        json_entry(logs) == JsonEntry::Object(log_entries(lines@)),
{
    let mut map = new_object();
    put_texts(&mut map, "lines", lines);
    object_value(map)
}

/// The text of a log line: time, level and target, then the message and the other fields, where
/// there are any.
pub open spec fn line_text(
    time: Seq<char>,
    level: Seq<char>,
    target: Seq<char>,
    message: Seq<char>,
    fields: Seq<char>,
) -> Seq<char> {
    let head = time + seq![' '] + level + seq![' '] + target;
    let with_message = if message.len() > 0 {
        head + ": "@ + message
    } else {
        head
    };
    if fields.len() > 0 {
        with_message + " "@ + fields
    } else {
        with_message
    }
}

/// What an event says: its message, and its other fields as one text.
#[derive(Debug)]
pub struct FieldVisitor {
    pub message: String,
    pub fields: String,
}

/// The text of the other fields once one more is added.
pub open spec fn with_field(fields: Seq<char>, name: Seq<char>, value: Seq<char>) -> Seq<char> {
    let start = if fields.len() > 0 {
        fields.push(' ')
    } else {
        fields
    };
    start + name + "="@ + value
}

/// `s` with each pair of `first` and `second`, from the left, replaced by `to`.
pub open spec fn replaced_pairs(s: Seq<char>, first: char, second: char, to: char) -> Seq<char>
    decreases s.len(),
{
    if s.len() == 0 {
        Seq::empty()
    } else if s.len() >= 2 && s[0] == first && s[1] == second {
        seq![to] + replaced_pairs(s.skip(2), first, second, to)
    } else {
        seq![s[0]] + replaced_pairs(s.skip(1), first, second, to)
    }
}

/// The message in the debug text of a message: without its quotes, and with escaped quotes and
/// line breaks in plain; the debug text itself where it has no quotes.
pub open spec fn unquoted(debug: Seq<char>) -> Seq<char> {
    if debug.len() >= 2 && debug[0] == '"' && debug.last() == '"' {
        replaced_pairs(
            replaced_pairs(debug.subrange(1, debug.len() - 1), '\\', '"', '"'),
            '\\',
            'n',
            '\n',
        )
    } else {
        debug
    }
}

fn replace_pairs(s: &str, first: char, second: char, to: char) -> (text: String)
    ensures
        text@ == replaced_pairs(s@, first, second, to),
{
    let chars = chars_of(s);
    let n: usize = chars.len();
    let mut text = String::new();
    let mut i: usize = 0;
    assert(s@.skip(0) == s@);
    while i < n
        invariant
            i <= n,
            n == chars@.len(),
            chars@ == s@,
            text@ + replaced_pairs(s@.skip(i as int), first, second, to) == replaced_pairs(
                s@,
                first,
                second,
                to,
            ),
        decreases n - i,
    {
        let ghost before = text@;
        let ghost rest = s@.skip(i as int);
        assert(rest[0] == chars@[i as int]);
        if n - i >= 2 && chars[i] == first && chars[i + 1] == second {
            text.push(to);
            assert(rest[1] == chars@[i + 1]);
            assert(rest.skip(2) == s@.skip(i + 2));
            assert(text@ + replaced_pairs(s@.skip(i + 2), first, second, to) =~= before
                + replaced_pairs(rest, first, second, to));
            i = i + 2;
        } else {
            text.push(chars[i]);
            assert(rest.len() >= 2 ==> rest[1] == chars@[i + 1]);
            assert(rest.skip(1) == s@.skip(i + 1));
            assert(text@ + replaced_pairs(s@.skip(i + 1), first, second, to) =~= before
                + replaced_pairs(rest, first, second, to));
            i = i + 1;
        }
    }
    assert(s@.skip(n as int).len() == 0);
    assert(text@ + Seq::<char>::empty() == text@);
    text
}

fn unquote(debug: &str) -> (text: String)
    ensures
        text@ == unquoted(debug@),
{
    let chars = chars_of(debug);
    let n: usize = chars.len();
    if n >= 2 && chars[0] == '"' && chars[n - 1] == '"' {
        let inner = text_from(&chars, 1, n - 1);
        let quotes = replace_pairs(inner.as_str(), '\\', '"', '"');
        replace_pairs(quotes.as_str(), '\\', 'n', '\n')
    } else {
        debug.to_owned()
    }
}

impl FieldVisitor {
    /// An event of which nothing is known yet.
    pub fn new() -> (visitor: Self)
        ensures
            visitor.message@ == Seq::<char>::empty(),
            visitor.fields@ == Seq::<char>::empty(),
    {
        FieldVisitor { message: String::new(), fields: String::new() }
    }

    fn append_field(&mut self, name: &str, value: &str)
        ensures
            final(self).message == old(self).message,
            final(self).fields@ == with_field(old(self).fields@, name@, value@),
    {
        if self.fields.as_str().unicode_len() > 0 {
            self.fields.push(' ');
        }
        self.fields.append(name);
        self.fields.append("=");
        self.fields.append(value);
    }

    /// Takes in a field with a text value.
    pub fn record_str(&mut self, name: &str, value: &str)
        ensures
            name@ == "message"@ ==> final(self).message@ == value@ && final(self).fields == old(
                self,
            ).fields,
            name@ != "message"@ ==> final(self).message == old(self).message && final(self).fields@
                == with_field(old(self).fields@, name@, value@),
    {
        if same_text(name, "message") {
            self.message = value.to_owned();
        } else {
            self.append_field(name, value);
        }
    }

    /// Takes in a field with the debug text of its value.
    pub fn record_debug(&mut self, name: &str, debug: &str)
        ensures
            name@ == "message"@ ==> final(self).message@ == unquoted(debug@) && final(self).fields
                == old(self).fields,
            name@ != "message"@ ==> final(self).message == old(self).message && final(self).fields@
                == with_field(old(self).fields@, name@, debug@),
    {
        if same_text(name, "message") {
            self.message = unquote(debug);
        } else {
            self.append_field(name, debug);
        }
    }

    /// The log line of the event.
    pub fn line(&self, time: &str, level: &str, target: &str) -> (line: String)
        ensures
            line@ == line_text(time@, level@, target@, self.message@, self.fields@),
    {
        let mut line = time.to_owned();
        line.push(' ');
        line.append(level);
        line.push(' ');
        line.append(target);
        assert(line@ =~= time@ + seq![' '] + level@ + seq![' '] + target@);
        if self.message.as_str().unicode_len() > 0 {
            line.append(": ");
            line.append(self.message.as_str());
        }
        if self.fields.as_str().unicode_len() > 0 {
            line.append(" ");
            line.append(self.fields.as_str());
        }
        line
    }
}

/// The time of day, in UTC, for a number of seconds since the epoch.
pub open spec fn clock_text_of(secs: Option<u64>) -> Seq<char> {
    match secs {
        Some(s) => two_digit_text(((s / 3600) % 24) as nat) + seq![':'] + two_digit_text(
            ((s / 60) % 60) as nat,
        ) + seq![':'] + two_digit_text((s % 60) as nat),
        None => "unknown"@,
    }
}

/// The time of day as `hh:mm:ss`, or `unknown` where the clock is before the epoch.
pub fn clock_text(secs: Option<u64>) -> (text: String)
    ensures
        text@ == clock_text_of(secs),
{
    match secs {
        Some(s) => {
            let mut text = two_digits((s / 3600) % 24);
            text.push(':');
            let minutes = two_digits((s / 60) % 60);
            text.append(minutes.as_str());
            text.push(':');
            let seconds = two_digits(s % 60);
            text.append(seconds.as_str());
            assert(text@ =~= clock_text_of(secs));
            text
        },
        None => "unknown".to_owned(),
    }
}

/// The newest lines are the last ones, in their order: as many as are asked for, or all.
pub proof fn law_newest_are_last(lines: Seq<String>, count: nat, i: int)
    ensures
        count <= lines.len() ==> newest(lines, count).len() == count,
        count >= lines.len() ==> newest(lines, count) == lines,
        0 <= i < newest(lines, count).len() ==> newest(lines, count)[i] == lines[lines.len()
            - newest(lines, count).len() + i],
        count >= 1 ==> line_capacity(count) == count,
        line_capacity(0) == 1,
{
    if count == lines.len() {
        assert(lines.skip(0) =~= lines);
    }
}

/// A log line is the time, the level and the target with a space between each two; then a colon, a
/// space and the message, where there is one; then a space and the other fields, where there are
/// any.
pub proof fn law_line_text(
    time: Seq<char>,
    level: Seq<char>,
    target: Seq<char>,
    message: Seq<char>,
    fields: Seq<char>,
)
    ensures
        ({
            let none = Seq::<char>::empty();
            let head = line_text(time, level, target, none, none);
            &&& head == time + seq![' '] + level + seq![' '] + target
            &&& message.len() > 0 ==> line_text(time, level, target, message, none) == head + seq![
                ':',
                ' ',
            ] + message
            &&& fields.len() > 0 ==> line_text(time, level, target, message, fields) == line_text(
                time,
                level,
                target,
                message,
                none,
            ) + seq![' '] + fields
        }),
{
    reveal_strlit(": ");
    reveal_strlit(" ");
    assert(": "@ =~= seq![':', ' ']);
    assert(" "@ =~= seq![' ']);
}

/// A field is its name, `=` and its value, and stands behind the fields before it with a space
/// between.
pub proof fn law_fields(fields: Seq<char>, name: Seq<char>, value: Seq<char>)
    ensures
        with_field(Seq::<char>::empty(), name, value) == name + seq!['='] + value,
        fields.len() > 0 ==> with_field(fields, name, value) == fields + seq![' '] + name + seq![
            '=',
        ] + value,
{
    reveal_strlit("=");
    assert("="@ =~= seq!['=']);
    assert(with_field(Seq::<char>::empty(), name, value) =~= name + seq!['='] + value);
    assert(fields.push(' ') =~= fields + seq![' ']);
}

/// Whether `first` followed by `second` stands anywhere in `s`.
pub open spec fn has_pair(s: Seq<char>, first: char, second: char) -> bool {
    exists|i: int| 0 <= i < s.len() - 1 && #[trigger] s[i] == first && s[i + 1] == second
}

/// Replacing pairs changes nothing before the first pair, puts `to` in its place, and goes on behind
/// it. A text without the pair stays as it is.
pub proof fn law_replaced_pairs(
    before: Seq<char>,
    after: Seq<char>,
    first: char,
    second: char,
    to: char,
)
    requires
        first != second,
        !has_pair(before, first, second),
    ensures
        replaced_pairs(before, first, second, to) == before,
        replaced_pairs(before + seq![first, second] + after, first, second, to) == before + seq![to]
            + replaced_pairs(after, first, second, to),
    decreases before.len(),
{
    let pair = seq![first, second];
    let whole = before + pair + after;
    if before.len() == 0 {
        assert(whole.skip(2) =~= after);
        assert(replaced_pairs(whole, first, second, to) =~= before + seq![to] + replaced_pairs(
            after,
            first,
            second,
            to,
        ));
    } else {
        let rest = before.skip(1);
        assert(!has_pair(rest, first, second)) by {
            if has_pair(rest, first, second) {
                let i = choose|i: int|
                    0 <= i < rest.len() - 1 && #[trigger] rest[i] == first && rest[i + 1] == second;
                assert(before[i + 1] == first && before[i + 2] == second);
            }
        }
        law_replaced_pairs(rest, after, first, second, to);
        assert(whole.skip(1) =~= rest + pair + after);
        if before.len() >= 2 {
            assert(!(before[0] == first && before[1] == second));
            assert(whole[1] == before[1]);
        } else {
            assert(whole[1] == first);
        }
        assert(replaced_pairs(before, first, second, to) =~= before);
        assert(replaced_pairs(whole, first, second, to) =~= before + seq![to] + replaced_pairs(
            after,
            first,
            second,
            to,
        ));
    }
}

/// A message in quotes loses them, and its escaped quotes and line breaks become plain, the quotes
/// first. A text that is not in quotes stays as it is.
pub proof fn law_unquoted(inner: Seq<char>, debug: Seq<char>)
    ensures
        unquoted(seq!['"'] + inner + seq!['"']) == replaced_pairs(
            replaced_pairs(inner, '\\', '"', '"'),
            '\\',
            'n',
            '\n',
        ),
        debug.len() < 2 || debug[0] != '"' || debug.last() != '"' ==> unquoted(debug) == debug,
        !has_pair(inner, '\\', '"') && !has_pair(inner, '\\', 'n') ==> unquoted(
            seq!['"'] + inner + seq!['"'],
        ) == inner,
{
    let quoted = seq!['"'] + inner + seq!['"'];
    assert(quoted.subrange(1, quoted.len() - 1) =~= inner);
    if !has_pair(inner, '\\', '"') && !has_pair(inner, '\\', 'n') {
        law_replaced_pairs(inner, inner, '\\', '"', '"');
        law_replaced_pairs(inner, inner, '\\', 'n', '\n');
    }
}

/// The time of day is `hh:mm:ss`, and its hours, minutes and seconds make up the seconds since
/// midnight. Without a time it is `unknown`.
pub proof fn law_clock_text(secs: u64)
    ensures
        ({
            let text = clock_text_of(Some(secs));
            let hours = 10 * (text[0] as int - 48) + (text[1] as int - 48);
            let minutes = 10 * (text[3] as int - 48) + (text[4] as int - 48);
            let seconds = 10 * (text[6] as int - 48) + (text[7] as int - 48);
            &&& text.len() == 8
            &&& text[2] == ':' && text[5] == ':'
            &&& 0 <= hours < 24 && 0 <= minutes < 60 && 0 <= seconds < 60
            &&& hours * 3600 + minutes * 60 + seconds == secs as int % 86400
        }),
        clock_text_of(None) == "unknown"@,
{
    law_two_digits(((secs / 3600) % 24) as nat);
    law_two_digits(((secs / 60) % 60) as nat);
    law_two_digits((secs % 60) as nat);
}

/// The log object holds the lines, in their order, under `lines` and nothing else.
pub proof fn law_log_object(lines: Seq<String>, key: Seq<char>)
    ensures
        log_entries(lines).contains_pair("lines"@, JsonEntry::Texts(texts_view(lines))),
        log_entries(lines).contains_key(key) <==> key == "lines"@,
{
}

} // verus!
