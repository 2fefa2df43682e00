//! Log entries and the bounded cache that a log panel shows.

use std::collections::VecDeque;
use vstd::prelude::*;
use vstd::string::StringExecFns;

verus! {

/// The verbosity level of the `log` crate. Opaque here: an entry carries the
/// level of its record through to whoever shows it.
#[verifier::external_type_specification]
#[verifier::external_body]
pub struct ExLevel(log::Level);

/// One logged message.
#[derive(Debug)]
pub struct LogEntry {
    /// When the message was logged, as shown: `[12-31 13:47:04.020]`.
    pub timestamp: String,
    /// The level of the record.
    pub level: log::Level,
    /// The message.
    pub message: String,
}

impl Clone for LogEntry {
    fn clone(&self) -> (r: Self)
        ensures
            r == *self,
    {
        LogEntry {
            timestamp: self.timestamp.clone(),
            level: self.level,
            message: self.message.clone(),
        }
    }
}

impl LogEntry {
    /// The line shown for an entry: timestamp, a space, message.
    pub open spec fn spec_full_line(self) -> Seq<char> {
        self.timestamp@ + seq![' '] + self.message@
    }

    /// The line shown for the entry.
    pub fn full_line(&self) -> (r: String)
        ensures
            r@ == self.spec_full_line(),
    {
        proof {
            reveal_strlit(" ");
        }
        let mut r = String::from_str(self.timestamp.as_str());
        r.append(" ");
        r.append(self.message.as_str());
        r
    }
}

/// What happened in a log panel during a frame.
#[derive(Debug, Clone, Copy, PartialEq, Eq, Structural)]
pub struct LogPanelResponse {
    /// The clear button was clicked.
    pub cleared: bool,
    /// The copy button was clicked.
    pub copied: bool,
    /// The number of entries shown.
    pub log_count: usize,
}

/// The lines joined into one text, a line feed between each two.
pub open spec fn joined_lines(lines: Seq<Seq<char>>) -> Seq<char>
    decreases lines.len(),
{
    if lines.len() == 0 {
        Seq::empty()
    } else if lines.len() == 1 {
        lines[0]
    } else {
        joined_lines(lines.drop_last()) + seq!['\n'] + lines.last()
    }
}

/// A log cache as a mathematical value.
pub struct LogCacheModel {
    /// The entries, oldest first.
    pub entries: Seq<LogEntry>,
    /// How many entries the cache keeps.
    pub max_entries: nat,
}

impl LogCacheModel {
    /// The cache after one more entry arrived: where the cache is full, the
    /// oldest entry leaves first.
    pub open spec fn push(self, entry: LogEntry) -> LogCacheModel {
        let kept = if self.entries.len() >= self.max_entries && self.entries.len() > 0 {
            self.entries.drop_first()
        } else {
            self.entries
        };
        LogCacheModel { entries: kept.push(entry), ..self }
    }

    /// The most entries a cache ever holds: its limit, and one entry where
    /// the limit is zero.
    pub open spec fn bound(self) -> nat {
        if self.max_entries == 0 {
            1
        } else {
            self.max_entries
        }
    }

    /// All entries as one text: one line per entry, oldest first.
    pub open spec fn text(self) -> Seq<char> {
        joined_lines(self.entries.map_values(|e: LogEntry| e.spec_full_line()))
    }
}

/// A cache that is within its bound stays within it when an entry arrives,
/// and its newest entry is the one that arrived.
pub proof fn lemma_cache_stays_bounded(cache: LogCacheModel, entry: LogEntry)
    requires
        cache.entries.len() <= cache.bound(),
    ensures
        cache.push(entry).entries.len() <= cache.push(entry).bound(),
        cache.push(entry).entries.last() == entry,
        cache.entries.len() < cache.max_entries ==> cache.push(entry).entries
            == cache.entries.push(entry),
{
}

/// The most recent log entries, up to a limit.
#[derive(Clone)]
pub struct LogCache {
    entries: VecDeque<LogEntry>,
    max_entries: usize,
}

impl View for LogCache {
    type V = LogCacheModel;

    closed spec fn view(&self) -> LogCacheModel {
        LogCacheModel { entries: self.entries@, max_entries: self.max_entries as nat }
    }
}

impl Default for LogCache {
    fn default() -> (r: Self)
        ensures
            r@.entries == Seq::<LogEntry>::empty(),
            r@.max_entries == 1000,
    {
        LogCache { entries: VecDeque::new(), max_entries: 1000 }
    }
}

impl LogCache {
    /// An empty cache that keeps up to `max_entries` entries.
    pub fn with_capacity(max_entries: usize) -> (r: Self)
        ensures
            r@.entries == Seq::<LogEntry>::empty(),
            r@.max_entries == max_entries,
    {
        LogCache { entries: VecDeque::new(), max_entries }
    }

    /// Takes in one entry. Where the cache is full, the oldest entry leaves.
    pub fn push(&mut self, entry: LogEntry)
        ensures
            final(self)@ == old(self)@.push(entry),
    {
        if self.entries.len() >= self.max_entries {
            self.entries.pop_front();
        }
        self.entries.push_back(entry);
    }

    /// Drops every entry.
    pub fn clear(&mut self)
        ensures
            final(self)@.entries == Seq::<LogEntry>::empty(),
            final(self)@.max_entries == old(self)@.max_entries,
    {
        self.entries.clear();
    }

    /// The number of entries.
    pub fn len(&self) -> (r: usize)
        ensures
            r == self@.entries.len(),
    {
        self.entries.len()
    }

    /// Whether there is no entry.
    pub fn is_empty(&self) -> (r: bool)
        ensures
            r == (self@.entries.len() == 0),
    {
        self.entries.len() == 0
    }

    /// The entry in place `i`, the oldest being in place 0.
    pub fn entry(&self, i: usize) -> (r: &LogEntry)
        requires
            i < self@.entries.len(),
        ensures
            *r == self@.entries[i as int],
    {
        &self.entries[i]
    }

    /// All entries as one text, for copying: one line per entry, oldest
    /// first.
    pub fn to_text(&self) -> (r: String)
        ensures
            r@ == self@.text(),
    {
        proof {
            reveal_strlit("\n");
        }
        let ghost lines = self.entries@.map_values(|e: LogEntry| e.spec_full_line());
        let mut r = String::new();
        let mut i: usize = 0;
        while i < self.entries.len()
            invariant
                i <= self.entries@.len(),
                lines == self.entries@.map_values(|e: LogEntry| e.spec_full_line()),
                r@ == joined_lines(lines.take(i as int)),
                "\n"@ == seq!['\n'],
            decreases self.entries.len() - i,
        {
            let line = self.entries[i].full_line();
            assert(lines.take(i + 1).drop_last() =~= lines.take(i as int));
            if i > 0 {
                r.append("\n");
            }
            r.append(line.as_str());
            i += 1;
        }
        assert(lines.take(self.entries@.len() as int) =~= lines);
        r
    }
}

} // verus!
