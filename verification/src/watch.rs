//! Tailing a log file: the saved reading position, what to read after a look at the file, and
//! how a chunk of new content is split into records.

use vstd::prelude::*;
use crate::num::parse_unsigned;
use crate::text::{parse_unsigned_spec, seq_trim, str_eq, trim};

verus! {

/// What to read of a tailed file.
#[derive(Debug, Clone, Copy, PartialEq, Eq, Structural)]
pub enum ReadPlan {
    /// Nothing new: the file has not grown.
    Unchanged,
    /// The file grew: read from the saved position.
    FromOffset(u64),
    /// The file was replaced or truncated: read it all again.
    FromStart,
}

/// What to read, from the size at the last look, the size now, and whether the file was replaced.
pub open spec fn read_plan(last_size: u64, current_size: u64, rotated: bool) -> ReadPlan {
    if rotated || current_size < last_size {
        ReadPlan::FromStart
    } else if current_size > last_size {
        ReadPlan::FromOffset(last_size)
    } else {
        ReadPlan::Unchanged
    }
}

/// What to read of a tailed file after a look at it.
pub fn plan_read(last_size: u64, current_size: u64, rotated: bool) -> (p: ReadPlan)
    ensures
        p == read_plan(last_size, current_size, rotated),
{
    if rotated || current_size < last_size {
        ReadPlan::FromStart
    } else if current_size > last_size {
        ReadPlan::FromOffset(last_size)
    } else {
        ReadPlan::Unchanged
    }
}

/// Whether the file was replaced: it had a creation time before (zero meaning none was known)
/// and has another one now.
pub fn rotated(previous_creation: u64, current_creation: u64) -> (b: bool)
    ensures
        b == (previous_creation != 0 && previous_creation != current_creation),
{
    previous_creation != 0 && previous_creation != current_creation
}

/// The reading position saved in a checkpoint file's text: the trimmed text as a decimal number,
/// or the start of the file where it is none.
pub fn offset_of(text: &str) -> (offset: u64)
    ensures
        offset == match parse_unsigned_spec(seq_trim(text@), 10, u64::MAX as nat) {
            Some(v) => v,
            None => 0,
        },
{
    let t = trim(text);
    match parse_unsigned(t.as_str(), 10, u64::MAX) {
        Some(v) => v,
        None => 0,
    }
}

/// `u8::is_ascii_whitespace`.
pub open spec fn ascii_space(b: u8) -> bool {
    b == 0x20 || b == 0x09 || b == 0x0A || b == 0x0C || b == 0x0D
}

/// The first byte that is not ASCII white space, if any.
pub open spec fn first_non_space(buf: Seq<u8>) -> Option<u8> {
    if exists|i: int| 0 <= i < buf.len() && !ascii_space(buf[i]) {
        Some(buf[choose|i: int| 0 <= i < buf.len() && !ascii_space(buf[i])
            && forall|j: int| 0 <= j < i ==> ascii_space(buf[j])])
    } else {
        None
    }
}

/// How a chunk of new content becomes records.
#[derive(Debug, Clone, Copy, PartialEq, Eq, Structural)]
pub enum ChunkMode {
    /// The whole chunk is a JSON array: each element is a record.
    JsonArray,
    /// The whole chunk is one document: one record.
    WholeDocument,
    /// Each line is a record.
    Lines,
}

/// The formats whose documents span lines.
pub open spec fn multiline_format(name: Seq<char>) -> bool {
    name == "elastic"@ || name == "gcp"@ || name == "json_generic"@
}

/// How a chunk is read, from its first non-space byte and the parser's format name: an array as a
/// JSON array, an object of a multi-line format as one document, anything else line by line.
pub open spec fn chunk_mode_spec(first: Option<u8>, format_name: Seq<char>) -> ChunkMode {
    if first == Some(0x5Bu8) {
        ChunkMode::JsonArray
    } else if first == Some(0x7Bu8) && multiline_format(format_name) {
        ChunkMode::WholeDocument
    } else {
        ChunkMode::Lines
    }
}

/// How the chunk whose first buffered bytes are `head` is read by a parser of format `format_name`.
pub fn chunk_mode(head: &[u8], format_name: &str) -> (m: ChunkMode)
    ensures
        m == chunk_mode_spec(first_non_space(head@), format_name@),
{
    let mut i: usize = 0;
    while i < head.len()
        invariant
            0 <= i <= head@.len(),
            forall|j: int| 0 <= j < i ==> ascii_space(head@[j]),
        decreases head@.len() - i,
    {
        let b = head[i];
        if !(b == 0x20 || b == 0x09 || b == 0x0A || b == 0x0C || b == 0x0D) {
            proof {
                let w = choose|k: int| 0 <= k < head@.len() && !ascii_space(head@[k])
                    && forall|j: int| 0 <= j < k ==> ascii_space(head@[j]);
                assert(0 <= i < head@.len() && !ascii_space(head@[i as int])
                    && forall|j: int| 0 <= j < i ==> ascii_space(head@[j]));
                if w < i {
                } else if w > i {
                    assert(ascii_space(head@[i as int]));
                }
                assert(w == i);
                assert(first_non_space(head@) == Some(b));
            }
            if b == 0x5B {
                return ChunkMode::JsonArray;
            }
            let multi = str_eq(format_name, "elastic") || str_eq(format_name, "gcp") || str_eq(format_name, "json_generic");
            proof {
                reveal_strlit("elastic");
                reveal_strlit("gcp");
                reveal_strlit("json_generic");
            }
            if b == 0x7B && multi {
                return ChunkMode::WholeDocument;
            }
            return ChunkMode::Lines;
        }
        i += 1;
    }
    assert(first_non_space(head@) is None);
    ChunkMode::Lines
}

/// The watch loop's view of the processed count: the count at the last change and how many
/// one-second ticks have passed without change (counting stops past five).
#[derive(Debug, Clone, Copy, PartialEq, Eq, Structural)]
pub struct PulseWatch {
    pub last_count: u64,
    pub quiet_ticks: u32,
}

/// One tick with the processed count at `current`: the new state, and whether the artifacts are
/// synced now (on the fifth quiet tick in a row).
pub open spec fn pulse_step(w: PulseWatch, current: u64) -> (PulseWatch, bool) {
    if current > w.last_count {
        (PulseWatch { last_count: current, quiet_ticks: 0 }, false)
    } else {
        (PulseWatch { last_count: w.last_count, quiet_ticks: if w.quiet_ticks <= 5 { (w.quiet_ticks + 1) as u32 } else { w.quiet_ticks } },
            w.quiet_ticks == 5)
    }
}

impl PulseWatch {
    /// A watch starting from the processed count `count`.
    pub fn new(count: u64) -> (w: PulseWatch)
        ensures
            w == (PulseWatch { last_count: count, quiet_ticks: 0 }),
    {
        PulseWatch { last_count: count, quiet_ticks: 0 }
    }

    /// One tick: whether the artifacts are to be synced now.
    pub fn tick(&mut self, current: u64) -> (sync: bool)
        ensures
            (*final(self), sync) == pulse_step(*old(self), current),
    {
        if current > self.last_count {
            self.quiet_ticks = 0;
            self.last_count = current;
            false
        } else {
            let sync = self.quiet_ticks == 5;
            if self.quiet_ticks <= 5 {
                self.quiet_ticks = self.quiet_ticks + 1;
            }
            sync
        }
    }
}

/// The state after a run of ticks, and how many of them synced.
pub open spec fn pulse_run(w: PulseWatch, counts: Seq<u64>) -> (PulseWatch, nat)
    decreases counts.len(),
{
    if counts.len() == 0 {
        (w, 0)
    } else {
        let (w1, n) = pulse_run(w, counts.drop_last());
        let (w2, s) = pulse_step(w1, counts.last());
        (w2, if s { n + 1 } else { n })
    }
}

/// A quiet stretch, however long, syncs the artifacts at most once: over ticks at which the
/// processed count does not grow past the last change, at most one tick syncs.
pub proof fn law_quiet_stretch_syncs_once(w: PulseWatch, counts: Seq<u64>)
    requires
        w.quiet_ticks <= 6,
        forall|i: int| 0 <= i < counts.len() ==> #[trigger] counts[i] <= w.last_count,
    ensures
        pulse_run(w, counts).1 <= 1,
        pulse_run(w, counts).0.last_count == w.last_count,
        pulse_run(w, counts).1 == 1 ==> pulse_run(w, counts).0.quiet_ticks == 6,
        pulse_run(w, counts).1 == 0 ==> pulse_run(w, counts).0.quiet_ticks <= 5 || w.quiet_ticks == 6,
        pulse_run(w, counts).0.quiet_ticks <= 6,
        pulse_run(w, counts).0.quiet_ticks >= w.quiet_ticks,
    decreases counts.len(),
{
    if counts.len() > 0 {
        let c = counts.drop_last();
        assert forall|i: int| 0 <= i < c.len() implies #[trigger] c[i] <= w.last_count by {
            assert(c[i] == counts[i]);
        }
        law_quiet_stretch_syncs_once(w, c);
        assert(counts.last() == counts[counts.len() - 1]);
    }
}

} // verus!
