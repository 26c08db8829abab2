//! Bounded record of recent diagnostic events, oldest evicted first.

use vstd::prelude::*;
use vstd::string::*;

verus! {

/// Number of entries a [`LogBuffer`] retains.
pub const LOG_CAPACITY: usize = 200;

/// Severity of a log entry.
#[derive(Clone, Copy, Debug, PartialEq, Eq, Structural)]
pub enum LogLevel {
    Debug,
    Info,
    Warning,
    Error,
}

/// The lower-case name of a level.
pub open spec fn level_name(l: LogLevel) -> Seq<char> {
    match l {
        LogLevel::Debug => "debug"@,
        LogLevel::Info => "info"@,
        LogLevel::Warning => "warning"@,
        LogLevel::Error => "error"@,
    }
}

impl LogLevel {
    /// The lower-case name of the level: `debug`, `info`, `warning` or `error`.
    pub fn as_str(&self) -> (r: &'static str)
        ensures
            r@ == level_name(*self),
    {
        match self {
            LogLevel::Debug => "debug",
            LogLevel::Info => "info",
            LogLevel::Warning => "warning",
            LogLevel::Error => "error",
        }
    }
}

/// The content of a log entry.
pub struct LogRecord {
    pub timestamp: Seq<char>,
    pub level: LogLevel,
    pub message: Seq<char>,
}

/// One diagnostic event; immutable once created.
#[derive(Clone, Debug)]
pub struct LogEntry {
    pub timestamp: String,
    pub level: LogLevel,
    pub message: String,
}

impl View for LogEntry {
    type V = LogRecord;

    open spec fn view(&self) -> LogRecord {
        LogRecord { timestamp: self.timestamp@, level: self.level, message: self.message@ }
    }
}

impl LogEntry {
    /// A copy of the entry with the same content.
    pub fn duplicate(&self) -> (r: LogEntry)
        ensures
            r@ == self@,
    {
        LogEntry {
            timestamp: self.timestamp.clone(),
            level: self.level,
            message: self.message.clone(),
        }
    }
}

/// The content of a sequence of entries.
pub open spec fn records(v: Seq<LogEntry>) -> Seq<LogRecord> {
    v.map_values(|e: LogEntry| e@)
}

/// What a buffer keeps of everything appended to it: the last
/// `LOG_CAPACITY` records, in order.
pub open spec fn retained(h: Seq<LogRecord>) -> Seq<LogRecord> {
    if h.len() <= LOG_CAPACITY {
        h
    } else {
        h.subrange(h.len() - LOG_CAPACITY, h.len() as int)
    }
}

/// The most recent `limit` records of `s` (all of them when `limit` is absent).
pub open spec fn tail(s: Seq<LogRecord>, limit: Option<usize>) -> Seq<LogRecord> {
    match limit {
        None => s,
        Some(k) => if s.len() <= k { s } else { s.subrange(s.len() - k, s.len() as int) },
    }
}

/// `c` is an ASCII digit.
pub open spec fn is_digit(c: char) -> bool {
    '0' as u32 <= c as u32 && c as u32 <= '9' as u32
}

/// The number written by the two digits of `s` at `i` and `i + 1`.
pub open spec fn two_digits(s: Seq<char>, i: int) -> int {
    10 * (s[i] as u32 - '0' as u32) + (s[i + 1] as u32 - '0' as u32)
}

/// `s` is a time of day written `HH:MM:SS`.
pub open spec fn is_time_of_day(s: Seq<char>) -> bool {
    &&& s.len() == 8
    &&& s[2] == ':' && s[5] == ':'
    &&& is_digit(s[0]) && is_digit(s[1]) && is_digit(s[3])
    &&& is_digit(s[4]) && is_digit(s[6]) && is_digit(s[7])
    &&& two_digits(s, 0) < 24 && two_digits(s, 3) < 60 && two_digits(s, 6) < 60
}

/// Relies on chrono's `From<SystemTime> for DateTime<Utc>`, which accepts a
/// clock before 1970 as well, and `format("%H:%M:%S")`: the current UTC time
/// of day as zero-padded hours, minutes and seconds (no leap second arises
/// from a `SystemTime`).
#[verifier::external_body]
fn clock_time_of_day() -> (r: String)
    ensures
        is_time_of_day(r@),
{
    chrono::DateTime::<chrono::Utc>::from(std::time::SystemTime::now()).format("%H:%M:%S").to_string()
}

/// The content of a buffer that started empty and had `pushed` appended one
/// record at a time, each append followed by eviction of the oldest record
/// when over capacity (what [`LogBuffer::push`] does).
pub open spec fn fill(pushed: Seq<LogRecord>) -> Seq<LogRecord>
    decreases pushed.len(),
{
    if pushed.len() == 0 {
        Seq::empty()
    } else {
        retained(fill(pushed.drop_last()).push(pushed.last()))
    }
}

/// FIFO eviction: appending records one at a time to an empty buffer leaves
/// exactly the last `LOG_CAPACITY` of them (all of them when fewer were
/// appended), in the order they were appended.
pub proof fn lemma_fifo_eviction(pushed: Seq<LogRecord>)
    ensures
        fill(pushed) == retained(pushed),
        fill(pushed).len() == if pushed.len() <= LOG_CAPACITY { pushed.len() } else { LOG_CAPACITY as nat },
        pushed.len() > LOG_CAPACITY ==> fill(pushed) == pushed.subrange(
            pushed.len() - LOG_CAPACITY,
            pushed.len() as int,
        ),
    decreases pushed.len(),
{
    if pushed.len() == 0 {
        assert(fill(pushed) =~= retained(pushed));
    } else {
        let front = pushed.drop_last();
        lemma_fifo_eviction(front);
        assert(front.push(pushed.last()) =~= pushed);
        assert(retained(retained(front).push(pushed.last())) =~= retained(pushed));
    }
}

/// `after` is `before` with one more entry, of severity `level`.
pub open spec fn logged_one(before: LogBuffer, after: LogBuffer, level: LogLevel) -> bool {
    &&& after.wf()
    &&& after.history().len() == before.history().len() + 1
    &&& after.history().drop_last() == before.history()
    &&& after.history().last().level == level
}

/// Bounded, insertion-ordered record of recent log entries.
pub struct LogBuffer {
    entries: Vec<LogEntry>,
    appended: Ghost<Seq<LogRecord>>,
}

impl View for LogBuffer {
    type V = Seq<LogRecord>;

    closed spec fn view(&self) -> Seq<LogRecord> {
        records(self.entries@)
    }
}

impl LogBuffer {
    /// Everything ever appended to the buffer, in order.
    pub closed spec fn history(&self) -> Seq<LogRecord> {
        self.appended@
    }

    /// The buffer holds exactly what it retains of its history.
    pub closed spec fn wf(&self) -> bool {
        self@ == retained(self.history())
    }

    /// An empty buffer.
    pub fn new() -> (r: LogBuffer)
        ensures
            r.wf(),
            r.history() == Seq::<LogRecord>::empty(),
            r@ == Seq::<LogRecord>::empty(),
    {
        let r = LogBuffer { entries: Vec::new(), appended: Ghost(Seq::empty()) };
        assert(r@ =~= Seq::<LogRecord>::empty());
        r
    }

    /// Number of entries held.
    pub fn len(&self) -> (r: usize)
        ensures
            r == self@.len(),
    {
        self.entries.len()
    }

    /// Appends `entry`, evicting the oldest entry once more than
    /// `LOG_CAPACITY` are held.
    pub fn push(&mut self, entry: LogEntry)
        requires
            old(self).wf(),
        ensures
            final(self).wf(),
            final(self).history() == old(self).history().push(entry@),
            final(self)@ == retained(old(self)@.push(entry@)),
    {
        let ghost h = self.appended@;
        let ghost e = entry@;
        let ghost nh = h.push(e);
        self.entries.push(entry);
        self.appended = Ghost(nh);
        assert(records(self.entries@) =~= old(self)@.push(e));
        if self.entries.len() > LOG_CAPACITY {
            let ghost pushed = self.entries@;
            self.entries.remove(0);
            assert(self.entries@ =~= pushed.subrange(1, pushed.len() as int));
            assert(old(self)@.len() == LOG_CAPACITY);
            assert(h.len() >= LOG_CAPACITY);
            assert(records(self.entries@) =~= records(pushed).subrange(1, pushed.len() as int));
            assert(records(pushed) =~= retained(h).push(e));
            assert(self@ =~= retained(nh));
        } else {
            assert(self@ =~= retained(nh));
        }
        assert(retained(old(self)@.push(e)) =~= retained(nh));
    }

    /// Appends an entry stamped with the current time.
    pub fn append(&mut self, level: LogLevel, message: String)
        requires
            old(self).wf(),
        ensures
            final(self).wf(),
            final(self).history().len() == old(self).history().len() + 1,
            final(self).history().drop_last() == old(self).history(),
            final(self).history().last().level == level,
            final(self).history().last().message == message@,
            is_time_of_day(final(self).history().last().timestamp),
            final(self)@ == retained(old(self)@.push(final(self).history().last())),
    {
        let timestamp = clock_time_of_day();
        let entry = LogEntry { timestamp, level, message };
        self.push(entry);
        assert(self.history().drop_last() =~= old(self).history());
    }

    /// Copies of the most recent `limit` entries (all when `limit` is
    /// absent), oldest first.
    pub fn recent(&self, limit: Option<usize>) -> (r: Vec<LogEntry>)
        ensures
            records(r@) == tail(self@, limit),
    {
        let n = self.entries.len();
        let start: usize = match limit {
            None => 0,
            Some(k) => if n <= k { 0 } else { n - k },
        };
        let mut out: Vec<LogEntry> = Vec::new();
        let mut i: usize = start;
        while i < n
            invariant
                start <= i <= n,
                n == self.entries@.len(),
                records(out@) == records(self.entries@).subrange(start as int, i as int),
            decreases n - i,
        {
            let e = self.entries[i].duplicate();
            let ghost before = out@;
            out.push(e);
            assert(out@ =~= before.push(e));
            assert(records(out@) =~= records(before).push(self.entries@[i as int]@));
            i = i + 1;
            assert(records(out@) =~= records(self.entries@).subrange(start as int, i as int));
        }
        assert(records(self.entries@).subrange(start as int, n as int) =~= tail(self@, limit));
        out
    }
}

} // verus!
