//! The in-memory log cache that the terminal UI draws from: log levels,
//! bounded record buffers kept by name, and the view over one of them.
use std::collections::VecDeque;
use vstd::prelude::*;

verus! {

/// The severity of a log record, most severe first.
#[derive(Debug, Clone, Copy, PartialEq, Eq, Structural)]
pub enum LogLevel {
    Error,
    Warn,
    Info,
    Debug,
    Trace,
}

/// The rank of a level: 1 for errors up to 5 for traces.
pub open spec fn level_rank(l: LogLevel) -> int {
    match l {
        LogLevel::Error => 1,
        LogLevel::Warn => 2,
        LogLevel::Info => 3,
        LogLevel::Debug => 4,
        LogLevel::Trace => 5,
    }
}

impl LogLevel {
    /// The rank of the level: 1 for errors up to 5 for traces.
    pub fn rank(&self) -> (r: u8)
        ensures
            r == level_rank(*self),
    {
        match self {
            LogLevel::Error => 1,
            LogLevel::Warn => 2,
            LogLevel::Info => 3,
            LogLevel::Debug => 4,
            LogLevel::Trace => 5,
        }
    }

    /// Whether a record of this level is shown where `max` is the most
    /// verbose level shown.
    pub fn at_most(&self, max: LogLevel) -> (r: bool)
        ensures
            r == (level_rank(*self) <= level_rank(max)),
    {
        self.rank() <= max.rank()
    }
}

/// One cached log record: its level and its rendered text.
#[derive(Debug)]
pub struct CachedLogRecord(pub LogLevel, pub String);

impl Default for CachedLogRecord {
    /// The most verbose level and no text.
    fn default() -> (r: CachedLogRecord)
        ensures
            r.0 == LogLevel::Trace,
            r.1@ == Seq::<char>::empty(),
    {
        CachedLogRecord(LogLevel::Trace, String::new())
    }
}

impl CachedLogRecord {
    pub fn new(level: LogLevel, msg: String) -> (r: CachedLogRecord)
        ensures
            r.0 == level,
            r.1 == msg,
    {
        CachedLogRecord(level, msg)
    }

    pub fn level(&self) -> (r: LogLevel)
        ensures
            r == self.0,
    {
        self.0
    }

    pub fn msg(&self) -> (r: &str)
        ensures
            r@ == self.1@,
    {
        self.1.as_str()
    }
}

/// How many of the `len` oldest records stay when one more arrives in a
/// buffer of `count` records (one at least: the new record).
pub open spec fn kept_on_append(len: nat, count: nat) -> nat {
    if count == 0 {
        0
    } else if len < count {
        len
    } else {
        (count - 1) as nat
    }
}

/// The records of a buffer of `count` records after `record` arrived: the
/// oldest go first.
pub open spec fn appended(records: Seq<CachedLogRecord>, count: nat, record: CachedLogRecord) -> Seq<CachedLogRecord> {
    records.subrange(records.len() - kept_on_append(records.len(), count), records.len() as int).push(record)
}

/// Adds `record` to a buffer of `count` records, dropping the oldest ones
/// first so that at most `count` remain (the new one always stays).
pub fn append_record(records: &mut VecDeque<CachedLogRecord>, count: usize, record: CachedLogRecord)
    ensures
        final(records)@ == appended(old(records)@, count as nat, record),
{
    let ghost start = records@;
    while records.len() > 0 && records.len() >= count
        invariant
            start == old(records)@,
            records@.len() <= start.len(),
            records@ == start.subrange(start.len() - records@.len(), start.len() as int),
            records@.len() >= kept_on_append(start.len(), count as nat),
        decreases records@.len(),
    {
        let _ = records.pop_front();
    }
    assert(records@.len() == kept_on_append(start.len(), count as nat));
    records.push_back(record);
}

/// An appender that keeps the last `count` records in the named buffer at
/// position `buffer` of a cache.
#[derive(Debug, Clone, Copy, PartialEq, Eq, Structural)]
pub struct CacheAppender {
    pub buffer: usize,
    pub count: usize,
}

/// Builds cache appenders from their configuration: a buffer name and a count.
#[derive(Debug, Clone, Copy, PartialEq, Eq, Structural, Default)]
pub struct CacheAppenderDeserializer;

/// Names of the record buffers and the buffers, each under its name.
pub struct Cache {
    pub names: Vec<String>,
    pub buffers: Vec<VecDeque<CachedLogRecord>>,
}

/// The names of a cache, as text.
pub open spec fn names_view(names: Seq<String>) -> Seq<Seq<char>> {
    names.map_values(|n: String| n@)
}

/// Whether a cache is well formed: one buffer under each name.
pub open spec fn cache_wf(c: Cache) -> bool {
    c.names@.len() == c.buffers@.len()
}

impl Cache {
    pub fn new() -> (r: Cache)
        ensures
            r.names@.len() == 0,
            r.buffers@.len() == 0,
    {
        Cache { names: Vec::new(), buffers: Vec::new() }
    }

    /// The position of the buffer called `name`, which is made, empty, if
    /// there is none yet.
    pub fn get_or_create(&mut self, name: String) -> (r: usize)
        requires
            old(self).names@.len() == old(self).buffers@.len(),
            old(self).names@.len() < usize::MAX,
        ensures
            final(self).names@.len() == final(self).buffers@.len(),
            r < final(self).names@.len(),
            final(self).names@[r as int]@ == name@,
            names_view(old(self).names@).contains(name@) ==> final(self).names@ == old(self).names@
                && final(self).buffers@ == old(self).buffers@
                && forall|j: int| 0 <= j < r ==> old(self).names@[j]@ != name@,
            !names_view(old(self).names@).contains(name@) ==> r == old(self).names@.len()
                && final(self).names@ == old(self).names@.push(name)
                && final(self).buffers@.len() == old(self).buffers@.len() + 1
                && final(self).buffers@.subrange(0, r as int) == old(self).buffers@
                && final(self).buffers@[r as int]@.len() == 0,
    {
        let mut i: usize = 0;
        while i < self.names.len()
            invariant
                self.names == old(self).names,
                self.buffers == old(self).buffers,
                self.names@.len() == self.buffers@.len(),
                i <= self.names@.len(),
                forall|j: int| 0 <= j < i ==> self.names@[j]@ != name@,
            decreases self.names@.len() - i,
        {
            if self.names[i] == name {
                assert(names_view(self.names@)[i as int] == name@);
                return i;
            }
            i += 1;
        }
        assert(!names_view(self.names@).contains(name@)) by {
            assert forall|j: int| 0 <= j < names_view(self.names@).len() implies names_view(self.names@)[j] != name@ by {
                assert(self.names@[j]@ != name@);
            }
        }
        let r = self.names.len();
        self.names.push(name);
        self.buffers.push(VecDeque::new());
        assert(self.buffers@.subrange(0, r as int) =~= old(self).buffers@);
        r
    }
}

impl Cache {
    /// Adds `record` to the buffer at position `index`, which keeps at most
    /// `count` records.
    pub fn append(&mut self, index: usize, count: usize, record: CachedLogRecord)
        requires
            cache_wf(*old(self)),
            index < old(self).buffers@.len(),
        ensures
            cache_wf(*final(self)),
            final(self).names == old(self).names,
            final(self).buffers@ == old(self).buffers@.update(
                index as int,
                final(self).buffers@[index as int],
            ),
            final(self).buffers@[index as int]@ == appended(old(self).buffers@[index as int]@, count as nat, record),
    {
        let mut buffer = self.buffers.remove(index);
        append_record(&mut buffer, count, record);
        self.buffers.insert(index, buffer);
        assert(self.buffers@ =~= old(self).buffers@.update(index as int, self.buffers@[index as int]));
    }
}

impl CacheAppenderDeserializer {
    /// The appender for the buffer called `name`, made if need be, which
    /// keeps `count` records.
    pub fn deserialize(&self, cache: &mut Cache, name: String, count: usize) -> (r: CacheAppender)
        requires
            cache_wf(*old(cache)),
            old(cache).names@.len() < usize::MAX,
        ensures
            cache_wf(*final(cache)),
            r.count == count,
            r.buffer < final(cache).names@.len(),
            final(cache).names@[r.buffer as int]@ == name@,
    {
        let buffer = cache.get_or_create(name);
        CacheAppender { buffer, count }
    }
}

impl CacheAppender {
    /// Adds `record` to this appender's buffer.
    pub fn append(&self, cache: &mut Cache, record: CachedLogRecord)
        requires
            cache_wf(*old(cache)),
            self.buffer < old(cache).buffers@.len(),
        ensures
            cache_wf(*final(cache)),
            final(cache).names == old(cache).names,
            final(cache).buffers@ == old(cache).buffers@.update(
                self.buffer as int,
                final(cache).buffers@[self.buffer as int],
            ),
            final(cache).buffers@[self.buffer as int]@
                == appended(old(cache).buffers@[self.buffer as int]@, self.count as nat, record),
    {
        cache.append(self.buffer, self.count, record);
    }
}

/// The name of the buffer that the log view draws.
pub const LOG_VIEW_BUFFER: &'static str = "tui_log_view";

/// The records of `records` that a view showing levels up to `max` shows,
/// newest first.
pub open spec fn shown_newest_first(records: Seq<CachedLogRecord>, max: LogLevel) -> Seq<CachedLogRecord>
    decreases records.len(),
{
    if records.len() == 0 {
        Seq::empty()
    } else {
        let rest = shown_newest_first(records.drop_first(), max);
        if level_rank(records[0].0) <= level_rank(max) {
            rest.push(records[0])
        } else {
            rest
        }
    }
}

/// At most the first `n` items of `s`.
pub open spec fn first_at_most<T>(s: Seq<T>, n: nat) -> Seq<T> {
    if s.len() <= n {
        s
    } else {
        s.subrange(0, n as int)
    }
}

/// The view of a log buffer in the terminal UI.
#[derive(Debug, Clone, Copy, PartialEq, Eq, Structural)]
pub struct LogView {
    pub buffer: usize,
    pub max_level: LogLevel,
}

impl LogView {
    /// A view of the buffer at position `buffer`, showing levels up to Info.
    pub fn new(buffer: usize) -> (r: LogView)
        ensures
            r.buffer == buffer,
            r.max_level == LogLevel::Info,
    {
        LogView { buffer, max_level: LogLevel::Info }
    }

    /// A view of the UI's own buffer, made if need be.
    pub fn attach(cache: &mut Cache) -> (r: LogView)
        requires
            cache_wf(*old(cache)),
            old(cache).names@.len() < usize::MAX,
        ensures
            cache_wf(*final(cache)),
            r.buffer < final(cache).names@.len(),
            final(cache).names@[r.buffer as int]@ == LOG_VIEW_BUFFER@,
            r.max_level == LogLevel::Info,
    {
        let buffer = cache.get_or_create(LOG_VIEW_BUFFER.to_owned());
        LogView::new(buffer)
    }

    pub fn max_level(&self) -> (r: LogLevel)
        ensures
            r == self.max_level,
    {
        self.max_level
    }

    pub fn set_max_level(&mut self, max_level: LogLevel)
        ensures
            final(self).max_level == max_level,
            final(self).buffer == old(self).buffer,
    {
        self.max_level = max_level;
    }

    /// The size the view asks for within `width` by `height`: at most 70 by 4.
    pub fn required_size(&self, width: usize, height: usize) -> (r: (usize, usize))
        ensures
            r.0 == (if width < 70 { width } else { 70 }),
            r.1 == (if height < 4 { height } else { 4 }),
    {
        (if width < 70 { width } else { 70 }, if height < 4 { height } else { 4 })
    }

    /// The records that `height` rows show, newest first (the newest at the
    /// bottom row): those of a level up to the view's, as many as fit.
    pub fn visible_records(&self, records: &VecDeque<CachedLogRecord>, height: usize) -> (r: Vec<CachedLogRecord>)
        ensures
            r@ == first_at_most(shown_newest_first(records@, self.max_level), height as nat),
    {
        let mut out: Vec<CachedLogRecord> = Vec::new();
        let n = records.len();
        let mut i: usize = n;
        while i > 0 && out.len() < height
            invariant
                n == records@.len(),
                i <= n,
                out@ == first_at_most(shown_newest_first(records@.subrange(i as int, n as int), self.max_level), height as nat),
            decreases i,
        {
            let ghost prev = records@.subrange(i as int, n as int);
            let record = &records[i - 1];
            let ghost next = records@.subrange(i - 1, n as int);
            assert(next.drop_first() =~= prev);
            assert(next[0] == *record);
            if record.level().at_most(self.max_level) {
                out.push(CachedLogRecord(record.0, record.1.clone()));
            }
            i -= 1;
        }
        proof {
            if i > 0 {
                lemma_first_at_most_stable(records@, i as nat, n as nat, self.max_level, height as nat);
            } else {
                assert(records@.subrange(0, n as int) =~= records@);
            }
        }
        out
    }
}

/// Once `n` records are shown from the suffix from `i`, the older records
/// change nothing in the first `n` shown.
proof fn lemma_first_at_most_stable(records: Seq<CachedLogRecord>, i: nat, len: nat, max: LogLevel, n: nat)
    requires
        len == records.len(),
        i <= len,
        shown_newest_first(records.subrange(i as int, len as int), max).len() >= n,
    ensures
        first_at_most(shown_newest_first(records, max), n)
            == first_at_most(shown_newest_first(records.subrange(i as int, len as int), max), n),
    decreases i,
{
    if i == 0 {
        assert(records.subrange(0, len as int) =~= records);
    } else {
        let prev = records.subrange(i as int, len as int);
        let next = records.subrange(i - 1, len as int);
        assert(next.drop_first() =~= prev);
        let a = shown_newest_first(prev, max);
        let b = shown_newest_first(next, max);
        assert(b.len() >= a.len());
        assert(first_at_most(b, n) =~= first_at_most(a, n)) by {
            if level_rank(next[0].0) <= level_rank(max) {
                assert(b == a.push(next[0]));
            }
        }
        lemma_first_at_most_stable(records, (i - 1) as nat, len, max, n);
    }
}

} // verus!
