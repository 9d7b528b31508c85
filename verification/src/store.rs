//! The log store: entries are appended to one file and read back pruned.
//!
//! The file is text in UTF-8. A file that is new or empty gets a byte-order
//! mark in front of its first entry; every entry is one line. The store here
//! holds the file in memory, so that its three operations are plain
//! functions of the file and the clock. A caller that keeps the file on disk
//! asks `next_write` what to append and `prune` what to write back.

use crate::prune::{
    ends_with_line, keeps_line, leading_token, prune, pruned, pruned_concat, pruned_empty,
    pruned_ends_with_line, pruned_line, pruned_twice_is_pruned_once, survivors_end_clean, without_cr,
};
use crate::text::{first_index_unique, free_of};
use crate::time::{
    is_word, local_now, rfc3339_instant, write_rfc3339, Retention, Timestamp,
};
use vstd::prelude::*;
use vstd::utf8::encode_utf8;

verus! {

/// The character that marks a text file as UTF-8: U+FEFF.
pub const BYTE_ORDER_MARK: char = '\u{feff}';

/// One record of the log.
#[derive(Clone, Debug, PartialEq, Eq)]
pub struct LogEntry {
    /// When the entry was written.
    pub timestamp: Timestamp,
    /// A short tag for the kind of event. The store never looks into it.
    pub marker: String,
    /// What happened, on one line.
    pub message: String,
}

/// Why the store did not take an entry.
#[derive(Clone, Copy, Debug, PartialEq, Eq, Structural)]
pub enum StoreError {
    /// The entry's time lies outside the dates that can be written down.
    TimestampOutOfRange,
}

/// What to do to the file on disk for one appended entry.
#[derive(Clone, Debug, PartialEq, Eq)]
pub struct LogWrite {
    /// The bytes to add at the end of the file.
    pub bytes: Vec<u8>,
    /// The same event for whoever watches the process: marker and message.
    pub console: String,
}

/// A log file held in memory.
#[derive(Clone, Debug, PartialEq, Eq)]
pub struct LogStore {
    file: Option<String>,
}

/// What the line of an entry stamped `stamp` holds: stamp, marker and
/// message with one space between them.
pub open spec fn entry_body(stamp: Seq<char>, marker: Seq<char>, message: Seq<char>) -> Seq<char> {
    stamp + seq![' '] + marker + seq![' '] + message
}

/// The line of an entry as it is written: what it holds, and a line feed.
pub open spec fn entry_line(stamp: Seq<char>, marker: Seq<char>, message: Seq<char>) -> Seq<char> {
    entry_body(stamp, marker, message) + seq!['\n']
}

/// What an observer is shown of an entry: marker, one space, message.
pub open spec fn console_line(marker: Seq<char>, message: Seq<char>) -> Seq<char> {
    marker + seq![' '] + message
}

/// The three bytes of the byte-order mark in UTF-8.
pub open spec fn mark_bytes() -> Seq<u8> {
    seq![0xEFu8, 0xBBu8, 0xBFu8]
}

/// The bytes that go to the end of the file for `line`: the line in UTF-8,
/// behind a byte-order mark where the file is `fresh`, that is new or empty.
pub open spec fn line_bytes(fresh: bool, line: Seq<char>) -> Seq<u8> {
    if fresh {
        mark_bytes() + encode_utf8(line)
    } else {
        encode_utf8(line)
    }
}

/// Whether `file` is new or empty. `None` is the file that does not exist.
pub open spec fn is_fresh(file: Option<Seq<char>>) -> bool {
    match file {
        Some(text) => text.len() == 0,
        None => true,
    }
}

/// The file's text after `line` was appended: a fresh file opens with the
/// byte-order mark, any other file grows by the line alone.
pub open spec fn appended(file: Option<Seq<char>>, line: Seq<char>) -> Seq<char> {
    match file {
        Some(text) if text.len() > 0 => text + line,
        _ => seq![BYTE_ORDER_MARK] + line,
    }
}

/// The file after a read at `now`: pruned, if it exists.
pub open spec fn file_after_read(file: Option<Seq<char>>, retention: Retention, now: Timestamp) -> Option<
    Seq<char>,
> {
    match file {
        Some(text) => Some(pruned(text, retention, now)),
        None => None,
    }
}

/// What a read at `now` returns: the pruned text, or nothing where no file
/// exists.
pub open spec fn read_at(file: Option<Seq<char>>, retention: Retention, now: Timestamp) -> Seq<
    char,
> {
    match file {
        Some(text) => pruned(text, retention, now),
        None => Seq::empty(),
    }
}

/// Writes an entry's line.
pub fn format_entry(stamp: &str, marker: &str, message: &str) -> (line: String)
    ensures
        line@ == entry_line(stamp@, marker@, message@),
{
    proof {
        reveal_strlit(" ");
        reveal_strlit("\n");
    }
    let mut line = String::from_str(stamp);
    line.append(" ");
    line.append(marker);
    line.append(" ");
    line.append(message);
    line.append("\n");
    assert(" "@ =~= seq![' ']);
    assert("\n"@ =~= seq!['\n']);
    line
}

impl LogEntry {
    /// The entry's line in the file. It is defined for an entry whose time
    /// can be written.
    pub open spec fn line(self) -> Seq<char>
        recommends
            self.timestamp.writable(),
    {
        entry_line(self.timestamp.text(), self.marker@, self.message@)
    }

    /// An entry for something that happened at `timestamp`.
    pub fn new(timestamp: Timestamp, marker: &str, message: &str) -> (entry: LogEntry)
        ensures
            entry.timestamp == timestamp,
            entry.marker@ == marker@,
            entry.message@ == message@,
    {
        LogEntry {
            timestamp,
            marker: String::from_str(marker),
            message: String::from_str(message),
        }
    }

    /// An entry for something that happens now.
    pub fn now(marker: &str, message: &str) -> (entry: LogEntry)
        ensures
            entry.timestamp.writable(),
            entry.marker@ == marker@,
            entry.message@ == message@,
    {
        LogEntry::new(local_now(), marker, message)
    }

    /// Writes the entry's line; there is none for a time that cannot be
    /// written.
    pub fn to_line(&self) -> (line: Result<String, StoreError>)
        ensures
            match line {
                Ok(text) => {
                    &&& self.timestamp.writable()
                    &&& is_word(self.timestamp.text())
                    &&& text@ == self.line()
                },
                Err(e) => !self.timestamp.writable() && e == StoreError::TimestampOutOfRange,
            },
    {
        match write_rfc3339(&self.timestamp) {
            Some(stamp) => Ok(format_entry(stamp.as_str(), self.marker.as_str(), self.message.as_str())),
            None => Err(StoreError::TimestampOutOfRange),
        }
    }

    /// What to show an observer of this entry.
    pub fn to_console(&self) -> (shown: String)
        ensures
            shown@ == console_line(self.marker@, self.message@),
    {
        proof {
            reveal_strlit(" ");
        }
        let mut shown = self.marker.clone();
        shown.append(" ");
        shown.append(self.message.as_str());
        assert(" "@ =~= seq![' ']);
        shown
    }
}

/// The bytes to add to a file of `file_len` bytes for `line`.
pub fn bytes_to_append(file_len: u64, line: &str) -> (bytes: Vec<u8>)
    ensures
        bytes@ == line_bytes(file_len == 0, line@),
{
    let mut bytes: Vec<u8> = Vec::new();
    if file_len == 0 {
        bytes.push(0xEF);
        bytes.push(0xBB);
        bytes.push(0xBF);
    }
    let text = line.as_bytes();
    let mut i: usize = 0;
    let ghost head = bytes@;
    while i < text.len()
        invariant
            i <= text.len(),
            text@ == encode_utf8(line@),
            bytes@ == head + text@.take(i as int),
        decreases text.len() - i,
    {
        bytes.push(text[i]);
        i += 1;
    }
    assert(text@.take(i as int) =~= text@);
    assert(head =~= if file_len == 0 {
        mark_bytes()
    } else {
        Seq::empty()
    });
    assert(Seq::<u8>::empty() + text@ =~= text@);
    bytes
}

/// What to write for `entry` at the end of a file of `file_len` bytes, and
/// what to show of it.
pub fn next_write(file_len: u64, entry: &LogEntry) -> (write: Result<LogWrite, StoreError>)
    ensures
        match write {
            Ok(w) => {
                &&& entry.timestamp.writable()
                &&& is_word(entry.timestamp.text())
                &&& w.bytes@ == line_bytes(file_len == 0, entry.line())
                &&& w.console@ == console_line(entry.marker@, entry.message@)
            },
            Err(e) => !entry.timestamp.writable() && e == StoreError::TimestampOutOfRange,
        },
{
    match entry.to_line() {
        Ok(line) => Ok(
            LogWrite { bytes: bytes_to_append(file_len, line.as_str()), console: entry.to_console() },
        ),
        Err(e) => Err(e),
    }
}

impl View for LogStore {
    type V = Option<Seq<char>>;

    /// The file's text; `None` while the file does not exist.
    closed spec fn view(&self) -> Option<Seq<char>> {
        match self.file {
            Some(text) => Some(text@),
            None => None,
        }
    }
}

impl LogStore {
    /// A store whose file does not exist yet.
    pub fn new() -> (store: LogStore)
        ensures
            store@ is None,
    {
        LogStore { file: None }
    }

    /// A store over a file that holds `text`.
    pub fn with_text(text: &str) -> (store: LogStore)
        ensures
            store@ == Some(text@),
    {
        LogStore { file: Some(String::from_str(text)) }
    }

    /// The file's text, if the file exists.
    pub fn contents(&self) -> (text: Option<String>)
        ensures
            match text {
                Some(t) => self@ == Some(t@),
                None => self@ is None,
            },
    {
        self.file.clone()
    }

    /// Appends `entry` as one line, creating the file if need be. A file
    /// that was new or empty gets the byte-order mark first.
    pub fn append_entry(&mut self, entry: &LogEntry) -> (done: Result<(), StoreError>)
        ensures
            match done {
                Ok(_) => {
                    &&& entry.timestamp.writable()
                    &&& is_word(entry.timestamp.text())
                    &&& final(self)@ == Some(appended(old(self)@, entry.line()))
                },
                Err(e) => {
                    &&& !entry.timestamp.writable()
                    &&& e == StoreError::TimestampOutOfRange
                    &&& final(self)@ == old(self)@
                },
            },
    {
        let line = match entry.to_line() {
            Ok(line) => line,
            Err(e) => {
                return Err(e);
            },
        };
        let mut text = match self.file.take() {
            Some(text) => text,
            None => String::new(),
        };
        if text.as_str().is_empty() {
            text.push(BYTE_ORDER_MARK);
        }
        text.append(line.as_str());
        self.file = Some(text);
        Ok(())
    }

    /// Appends an entry for `message` under `marker`, stamped with the
    /// current time, whatever that is.
    pub fn append(&mut self, message: &str, marker: &str)
        ensures
            exists|at: Timestamp|
                {
                    &&& at.writable()
                    &&& is_word(at.text())
                    &&& final(self)@ == Some(
                        appended(old(self)@, #[trigger] entry_line(at.text(), marker@, message@)),
                    )
                },
    {
        let entry = LogEntry::now(marker, message);
        let done = self.append_entry(&entry);
        assert(final(self)@ == Some(
            appended(old(self)@, entry_line(entry.timestamp.text(), marker@, message@)),
        ));
    }

    /// Reads the log at `now` and prunes it in the same step: the entries
    /// older than `retention` leave the file, and what is returned is what
    /// the file holds afterwards. Where no file exists the result is empty
    /// and none is created.
    pub fn read_and_prune(&mut self, retention: &Retention, now: &Timestamp) -> (content: String)
        ensures
            content@ == read_at(old(self)@, *retention, *now),
            final(self)@ == file_after_read(old(self)@, *retention, *now),
    {
        match &self.file {
            Some(text) => {
                let content = prune(text.as_str(), retention, now);
                self.file = Some(content.clone());
                content
            },
            None => String::new(),
        }
    }

    /// Empties the file, creating it if need be.
    pub fn clear(&mut self)
        ensures
            final(self)@ == Some(Seq::<char>::empty()),
    {
        self.file = Some(String::new());
    }
}

/// The line that an entry makes in the file, without its line feed: in a
/// fresh file the byte-order mark stands at its head.
pub open spec fn line_in_file(file: Option<Seq<char>>, body: Seq<char>) -> Seq<char> {
    if is_fresh(file) {
        seq![BYTE_ORDER_MARK] + body
    } else {
        body
    }
}

/// The file after each of `lines` was appended in turn.
pub open spec fn after_appends(file: Option<Seq<char>>, lines: Seq<Seq<char>>) -> Option<Seq<char>>
    decreases lines.len(),
{
    if lines.len() == 0 {
        file
    } else {
        after_appends(Some(appended(file, lines.first())), lines.drop_first())
    }
}

/// A read after an append returns what a read before it would have
/// returned, and behind that the new line if it outlives the read. This
/// holds of a file that ends where a line ends, and of a stamp, a marker and
/// a message without line feed.
pub proof fn read_after_append(
    file: Option<Seq<char>>,
    stamp: Seq<char>,
    marker: Seq<char>,
    message: Seq<char>,
    retention: Retention,
    now: Timestamp,
)
    requires
        file matches Some(text) ==> ends_with_line(text),
        free_of(stamp, '\n'),
        free_of(marker, '\n'),
        free_of(message, '\n'),
    ensures
        ({
            let line = without_cr(line_in_file(file, entry_body(stamp, marker, message)));
            read_at(Some(appended(file, entry_line(stamp, marker, message))), retention, now)
                == read_at(file, retention, now) + (if keeps_line(line, retention, now) {
                line + seq!['\n']
            } else {
                Seq::empty()
            })
        }),
{
    let body = entry_body(stamp, marker, message);
    let written = line_in_file(file, body);
    assert(free_of(body, '\n'));
    assert(free_of(written, '\n'));
    pruned_line(written, retention, now);
    if is_fresh(file) {
        pruned_empty(retention, now);
        assert(appended(file, body + seq!['\n']) =~= written + seq!['\n']);
        assert(Seq::<char>::empty() + pruned(written + seq!['\n'], retention, now) =~= pruned(
            written + seq!['\n'],
            retention,
            now,
        ));
    } else {
        pruned_concat(file.unwrap(), body + seq!['\n'], retention, now);
    }
}

/// An entry opens with its stamp: where the stamp holds no space, the stamp
/// is the token by which a read tells the entry's age. In a fresh file the
/// byte-order mark is part of that token.
pub proof fn entry_opens_with_stamp(
    file: Option<Seq<char>>,
    stamp: Seq<char>,
    marker: Seq<char>,
    message: Seq<char>,
)
    requires
        free_of(stamp, ' '),
    ensures
        leading_token(without_cr(line_in_file(file, entry_body(stamp, marker, message))))
            == Some(line_in_file(file, stamp)),
{
    let written = line_in_file(file, entry_body(stamp, marker, message));
    let line = without_cr(written);
    let token = line_in_file(file, stamp);
    assert(BYTE_ORDER_MARK != ' ');
    assert forall|i: int| 0 <= i < token.len() implies line[i] != ' ' by {
        assert(line[i] == token[i]);
        if is_fresh(file) && i > 0 {
            assert(token[i] == stamp[i - 1]);
        }
    }
    assert(line[token.len() as int] == ' ');
    first_index_unique(line, ' ', token.len() as int);
    assert(line.take(token.len() as int) =~= token);
}

/// A word in visible ASCII holds no space, no line feed, no carriage return
/// and no byte-order mark.
pub proof fn word_is_one_token(word: Seq<char>)
    requires
        is_word(word),
    ensures
        free_of(word, ' '),
        free_of(word, '\n'),
        free_of(word, '\r'),
        free_of(word, BYTE_ORDER_MARK),
{
    assert forall|i: int| 0 <= i < word.len() implies word[i] != ' ' && word[i] != '\n' && word[i]
        != '\r' && word[i] != BYTE_ORDER_MARK by {
        assert('!' <= word[i] <= '~');
    }
}

/// Append durability. An entry that was appended at the clock's reading
/// `at` is in what the next read returns, whole and at the end, if that
/// read falls inside the retention window: if the entry's stamp reads as a
/// time less than the window before `now`, or as no time at all. What an
/// append writes for `at` is one word in visible ASCII, as every append
/// says of itself. This holds of a file that ends where a line ends, of a
/// marker without line feed, and of a message without line feed that does
/// not end in a carriage return.
pub proof fn appended_entry_is_read(
    file: Option<Seq<char>>,
    at: Timestamp,
    marker: Seq<char>,
    message: Seq<char>,
    retention: Retention,
    now: Timestamp,
)
    requires
        at.writable(),
        is_word(at.text()),
        file matches Some(text) ==> ends_with_line(text),
        free_of(marker, '\n'),
        free_of(message, '\n'),
        message.len() == 0 || message.last() != '\r',
        rfc3339_instant(line_in_file(file, at.text())) matches Some(written) ==> retention.covers(
            now,
            written,
        ),
    ensures
        read_at(Some(appended(file, entry_line(at.text(), marker, message))), retention, now)
            == read_at(file, retention, now) + line_in_file(
            file,
            entry_line(at.text(), marker, message),
        ),
{
    let stamp = at.text();
    let body = entry_body(stamp, marker, message);
    let written = line_in_file(file, body);
    word_is_one_token(stamp);
    assert(written.last() != '\r') by {
        if message.len() > 0 {
            assert(written.last() == message.last());
        } else {
            assert(written.last() == ' ');
        }
    }
    read_after_append(file, stamp, marker, message, retention, now);
    entry_opens_with_stamp(file, stamp, marker, message);
    assert(written + seq!['\n'] =~= line_in_file(file, entry_line(stamp, marker, message)));
}

/// The file is a run of lines, each ended by a line feed, and stays one:
/// an append leaves a file that ends where a line ends, and so does a read,
/// whatever the file held before.
pub proof fn file_stays_a_run_of_lines(
    file: Option<Seq<char>>,
    stamp: Seq<char>,
    marker: Seq<char>,
    message: Seq<char>,
    retention: Retention,
    now: Timestamp,
)
    ensures
        ends_with_line(appended(file, entry_line(stamp, marker, message))),
        file_after_read(file, retention, now) matches Some(text) ==> ends_with_line(text),
{
    if let Some(text) = file {
        pruned_ends_with_line(text, retention, now);
    }
}

/// The store never deletes its file: a file that exists still exists after
/// a read, as it does after an append and after clearing, which both leave
/// a file behind whatever was there.
pub proof fn file_is_never_deleted(file: Option<Seq<char>>, retention: Retention, now: Timestamp)
    ensures
        file is Some ==> file_after_read(file, retention, now) is Some,
{
}

/// A read returns what it leaves in the file: where the file exists, the
/// text that is returned is the text that the file holds afterwards.
pub proof fn read_returns_what_it_leaves(
    file: Option<Seq<char>>,
    retention: Retention,
    now: Timestamp,
)
    ensures
        file is Some ==> file_after_read(file, retention, now) == Some(
            read_at(file, retention, now),
        ),
{
}

/// A second read at the same time returns what the first returned and
/// leaves the file as the first left it. This holds of a file whose
/// surviving lines do not end in a carriage return.
pub proof fn second_read_changes_nothing(
    file: Option<Seq<char>>,
    retention: Retention,
    now: Timestamp,
)
    requires
        file matches Some(text) ==> survivors_end_clean(text, retention, now),
    ensures
        ({
            let after = file_after_read(file, retention, now);
            &&& read_at(after, retention, now) == read_at(file, retention, now)
            &&& file_after_read(after, retention, now) == after
        }),
{
    if let Some(text) = file {
        pruned_twice_is_pruned_once(text, retention, now);
    }
}

/// A file that does not exist reads as an empty file does: the result is
/// empty. The read creates no file, and it leaves an empty file empty.
pub proof fn missing_file_reads_empty(retention: Retention, now: Timestamp)
    ensures
        read_at(None, retention, now) == Seq::<char>::empty(),
        file_after_read(None, retention, now) is None,
        read_at(Some(Seq::empty()), retention, now) == Seq::<char>::empty(),
        file_after_read(Some(Seq::empty()), retention, now) == Some(Seq::<char>::empty()),
{
    pruned_empty(retention, now);
}

/// Appends to a file that is not fresh add the lines and nothing else.
pub proof fn appends_add_no_mark(text: Seq<char>, lines: Seq<Seq<char>>)
    requires
        text.len() > 0,
    ensures
        after_appends(Some(text), lines) == Some(text + lines.flatten()),
    decreases lines.len(),
{
    if lines.len() == 0 {
        assert(text + lines.flatten() =~= text);
    } else {
        appends_add_no_mark(text + lines.first(), lines.drop_first());
        assert((text + lines.first()) + lines.drop_first().flatten() =~= text + lines.flatten());
    }
}

/// The byte-order mark is written once. After one append or more to a fresh
/// file, the file is the mark and behind it the appended lines, whatever
/// their number; and if no line holds the mark itself, the file holds it at
/// its head and nowhere else.
pub proof fn mark_is_written_once(file: Option<Seq<char>>, lines: Seq<Seq<char>>)
    requires
        is_fresh(file),
        lines.len() > 0,
    ensures
        after_appends(file, lines) == Some(seq![BYTE_ORDER_MARK] + lines.flatten()),
        (forall|k: int| 0 <= k < lines.len() ==> free_of(#[trigger] lines[k], BYTE_ORDER_MARK))
            ==> free_of(after_appends(file, lines).unwrap().skip(1), BYTE_ORDER_MARK),
{
    let first = seq![BYTE_ORDER_MARK] + lines.first();
    appends_add_no_mark(first, lines.drop_first());
    assert(first + lines.drop_first().flatten() =~= seq![BYTE_ORDER_MARK] + lines.flatten());
    assert((seq![BYTE_ORDER_MARK] + lines.flatten()).skip(1) =~= lines.flatten());
    if forall|k: int| 0 <= k < lines.len() ==> free_of(#[trigger] lines[k], BYTE_ORDER_MARK) {
        flatten_free_of(lines, BYTE_ORDER_MARK);
    }
}

/// Whether the three bytes of the byte-order mark stand in `bytes` from the
/// place `at` on.
pub open spec fn mark_at(bytes: Seq<u8>, at: int) -> bool {
    &&& 0 <= at
    &&& at + 3 <= bytes.len()
    &&& bytes[at] == 0xEFu8
    &&& bytes[at + 1] == 0xBBu8
    &&& bytes[at + 2] == 0xBFu8
}

/// Whether `bytes` begin with the byte-order mark and hold its three bytes
/// nowhere else.
pub open spec fn marked_once(bytes: Seq<u8>) -> bool {
    &&& mark_at(bytes, 0)
    &&& forall|at: int| mark_at(bytes, at) ==> at == 0
}

/// Text without the byte-order mark holds the mark's three bytes nowhere
/// when it is written in UTF-8: no other character, and no two characters
/// in a row, spell them.
pub proof fn utf8_holds_no_mark(text: Seq<char>)
    requires
        free_of(text, BYTE_ORDER_MARK),
    ensures
        forall|at: int| !mark_at(encode_utf8(text), at),
    decreases text.len(),
{
    if text.len() > 0 {
        let rest = text.drop_first();
        let head = vstd::utf8::encode_scalar(text[0] as u32);
        let tail = encode_utf8(rest);
        assert forall|i: int| 0 <= i < rest.len() implies rest[i] != BYTE_ORDER_MARK by {
            assert(rest[i] == text[i + 1]);
        }
        utf8_holds_no_mark(rest);
        bytes_of_one_character(text[0]);
        assert(text[0] != BYTE_ORDER_MARK);
        assert forall|at: int| !mark_at(encode_utf8(text), at) by {
            let all = head + tail;
            if mark_at(all, at) {
                if at >= head.len() {
                    assert(all[at] == tail[at - head.len()]);
                    assert(all[at + 1] == tail[at + 1 - head.len()]);
                    assert(all[at + 2] == tail[at + 2 - head.len()]);
                    assert(mark_at(tail, at - head.len()));
                } else {
                    assert(all[at] == head[at]);
                    assert(at == 0);
                    assert(all[1] == head[1]);
                    assert(all[2] == head[2]);
                }
            }
        }
    }
}

/// The byte-order mark stands once on disk. A file that is new or empty,
/// or that begins with the mark and holds its three bytes nowhere else,
/// begins with the mark and holds its three bytes nowhere else after an
/// entry was added to it as `line_bytes` says: so it does after any number
/// of entries. This holds of a stamp that is one word in visible ASCII, as
/// every stamp is that an append writes, and of a marker and a message that
/// do not hold the mark themselves.
pub proof fn mark_stands_once_on_disk(
    file: Seq<u8>,
    stamp: Seq<char>,
    marker: Seq<char>,
    message: Seq<char>,
)
    requires
        file.len() == 0 || marked_once(file),
        is_word(stamp),
        free_of(marker, BYTE_ORDER_MARK),
        free_of(message, BYTE_ORDER_MARK),
    ensures
        marked_once(file + line_bytes(file.len() == 0, entry_line(stamp, marker, message))),
{
    let line = entry_line(stamp, marker, message);
    let text = encode_utf8(line);
    let after = file + line_bytes(file.len() == 0, line);
    word_is_one_token(stamp);
    assert(free_of(line, BYTE_ORDER_MARK));
    utf8_holds_no_mark(line);
    assert(text.len() > 0 && text[0] < 0x80u8) by {
        let first = line[0] as u32;
        assert(' ' <= line[0] <= '~') by {
            if stamp.len() > 0 {
                assert(line[0] == stamp[0]);
            }
        }
        assert(first <= 0x7F ==> ((first & 0x7F) as u8) < 0x80u8) by (bit_vector);
        assert(text =~= vstd::utf8::encode_scalar(first) + encode_utf8(line.drop_first()));
    }
    if file.len() == 0 {
        assert(after =~= mark_bytes() + text);
        assert forall|at: int| mark_at(after, at) implies at == 0 by {
            if at >= 3 {
                assert(after[at] == text[at - 3]);
                assert(after[at + 1] == text[at - 2]);
                assert(after[at + 2] == text[at - 1]);
                assert(mark_at(text, at - 3));
            }
        }
    } else {
        assert(after =~= file + text);
        assert forall|at: int| mark_at(after, at) implies at == 0 by {
            if at + 3 <= file.len() {
                assert(mark_at(file, at));
            } else if at >= file.len() {
                assert(after[at] == text[at - file.len()]);
                assert(after[at + 1] == text[at + 1 - file.len()]);
                assert(after[at + 2] == text[at + 2 - file.len()]);
                assert(mark_at(text, at - file.len()));
            } else {
                assert(after[file.len() as int] == text[0]);
            }
        }
    }
}

/// U+FEFF takes three bytes in UTF-8: EF BB BF.
pub proof fn mark_in_utf8(rest: Seq<char>)
    ensures
        encode_utf8(seq![BYTE_ORDER_MARK] + rest) == mark_bytes() + encode_utf8(rest),
{
    let text = seq![BYTE_ORDER_MARK] + rest;
    assert(text[0] as u32 == 0xFEFFu32);
    assert(text.drop_first() =~= rest);
    assert(0xE0u8 | (((0xFEFFu32 >> 12) & 0x0F) as u8) == 0xEFu8) by (bit_vector);
    assert(0x80u8 | (((0xFEFFu32 >> 6) & 0x3F) as u8) == 0xBBu8) by (bit_vector);
    assert(0x80u8 | ((0xFEFFu32 & 0x3F) as u8) == 0xBFu8) by (bit_vector);
    assert(vstd::utf8::encode_scalar(0xFEFFu32) =~= mark_bytes());
}

/// Text in a row is encoded piece by piece.
pub proof fn utf8_of_concat(head: Seq<char>, tail: Seq<char>)
    ensures
        encode_utf8(head + tail) == encode_utf8(head) + encode_utf8(tail),
    decreases head.len(),
{
    if head.len() == 0 {
        assert(head + tail =~= tail);
        assert(encode_utf8(head) + encode_utf8(tail) =~= encode_utf8(tail));
    } else {
        let both = head + tail;
        assert(both[0] == head[0]);
        assert(both.drop_first() =~= head.drop_first() + tail);
        utf8_of_concat(head.drop_first(), tail);
        assert(encode_utf8(both) =~= encode_utf8(head) + encode_utf8(tail));
    }
}

/// The file on disk and the file in memory stay in step: the bytes that
/// `line_bytes` names for a line, added to the bytes of the file, are the
/// bytes of the text that `appended` names.
pub proof fn written_bytes_are_the_appended_text(file: Option<Seq<char>>, line: Seq<char>)
    ensures
        encode_utf8(appended(file, line)) == encode_utf8(
            match file {
                Some(text) => text,
                None => Seq::empty(),
            },
        ) + line_bytes(is_fresh(file), line),
{
    if is_fresh(file) {
        mark_in_utf8(line);
        assert(Seq::<u8>::empty() + line_bytes(true, line) =~= line_bytes(true, line));
    } else {
        utf8_of_concat(file.unwrap(), line);
    }
}

/// Lines in a row hold no `c` where none of them does.
proof fn flatten_free_of(lines: Seq<Seq<char>>, c: char)
    requires
        forall|k: int| 0 <= k < lines.len() ==> free_of(#[trigger] lines[k], c),
    ensures
        free_of(lines.flatten(), c),
    decreases lines.len(),
{
    if lines.len() > 0 {
        let rest = lines.drop_first();
        assert forall|k: int| 0 <= k < rest.len() implies free_of(#[trigger] rest[k], c) by {
            assert(rest[k] == lines[k + 1]);
        }
        flatten_free_of(rest, c);
        assert(free_of(lines[0], c));
        assert forall|i: int| 0 <= i < lines.flatten().len() implies lines.flatten()[i] != c by {
            if i < lines.first().len() {
                assert(lines.flatten()[i] == lines.first()[i]);
            } else {
                assert(lines.flatten()[i] == rest.flatten()[i - lines.first().len()]);
            }
        }
    }
}

/// The bytes of one character in UTF-8: the byte EF stands at the head of a
/// character of three bytes and nowhere else, and the only character
/// written EF BB BF is the byte-order mark.
proof fn bytes_of_one_character(c: char)
    ensures
        ({
            let bytes = vstd::utf8::encode_scalar(c as u32);
            &&& 1 <= bytes.len() <= 4
            &&& forall|i: int| 1 <= i < bytes.len() ==> bytes[i] != 0xEFu8
            &&& bytes[0] == 0xEFu8 ==> bytes.len() == 3
            &&& bytes[0] == 0xEFu8 && bytes[1] == 0xBBu8 && bytes[2] == 0xBFu8 ==> c
                == BYTE_ORDER_MARK
        }),
{
    let s = c as u32;
    assert((s & 0x7F) as u8 != 0xEFu8) by (bit_vector);
    assert(0xC0u8 | (((s >> 6) & 0x1F) as u8) != 0xEFu8) by (bit_vector);
    assert(0xF0u8 | (((s >> 18) & 0x7) as u8) != 0xEFu8) by (bit_vector);
    assert(0x80u8 | ((s & 0x3F) as u8) != 0xEFu8) by (bit_vector);
    assert(0x80u8 | (((s >> 6) & 0x3F) as u8) != 0xEFu8) by (bit_vector);
    assert(0x80u8 | (((s >> 12) & 0x3F) as u8) != 0xEFu8) by (bit_vector);
    assert(0x800 <= s <= 0xFFFF && 0xE0u8 | (((s >> 12) & 0x0F) as u8) == 0xEFu8 && 0x80u8 | (((s
        >> 6) & 0x3F) as u8) == 0xBBu8 && 0x80u8 | ((s & 0x3F) as u8) == 0xBFu8 ==> s
        == 0xFEFFu32) by (bit_vector);
    if s == 0xFEFFu32 {
        assert(c == BYTE_ORDER_MARK);
    }
}

} // verus!
