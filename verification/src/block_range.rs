//! Resolution of relative block markers against the chain head.

use vstd::prelude::*;

verus! {

/// The absolute block that a raw marker denotes, before any clamping to the head.
///
/// A marker that is not negative is the block number itself. A negative marker `-n` counts
/// back from the head, with `-1` being the head, and never reaches below block zero.
pub open spec fn resolved_marker(head: int, marker: int) -> int {
    if marker >= 0 {
        marker
    } else if head + 1 + marker >= 0 {
        head + 1 + marker
    } else {
        0
    }
}

/// The smaller of two integers.
pub open spec fn lesser(a: int, b: int) -> int {
    if a <= b {
        a
    } else {
        b
    }
}

/// Last block of the window: the resolved end marker, held at the head.
pub open spec fn resolved_end(head: int, end_marker: int) -> int {
    lesser(head, resolved_marker(head, end_marker))
}

/// First block of the window: the resolved start marker, held at the window's last block.
pub open spec fn resolved_start(head: int, start_marker: int, end_marker: int) -> int {
    lesser(resolved_end(head, end_marker), resolved_marker(head, start_marker))
}

/// An inclusive window of absolute block numbers.
#[derive(Clone, Copy, Debug, PartialEq, Eq, Structural)]
pub struct BlockRange {
    /// First block of the window.
    pub start: u64,
    /// Last block of the window.
    pub end: u64,
}

impl BlockRange {
    /// A window is well formed under a head when it is ordered and does not pass the head.
    pub open spec fn wf(self, head: u64) -> bool {
        self.start <= self.end && self.end <= head
    }

    /// Resolves a pair of raw markers into a window under the given head.
    ///
    /// No pair of markers is refused: what lies beyond the head is held at the head, and a
    /// start beyond the end is held at the end.
    pub fn resolve(head: u64, start_raw: i64, end_raw: i64) -> (range: BlockRange)
        ensures
            range.start as int == resolved_start(head as int, start_raw as int, end_raw as int),
            range.end as int == resolved_end(head as int, end_raw as int),
            range.wf(head),
    {
        let (start, end) = resolve_block_numbers(head, start_raw, end_raw);
        BlockRange { start, end }
    }
}

/// Turns a block marker into an absolute block number.
pub fn resolve_negative_block_number(current_blocknumber: u64, relative_blocknumber: i64) -> (block: u64)
    ensures
        block as int == resolved_marker(current_blocknumber as int, relative_blocknumber as int),
{
    if relative_blocknumber < 0 {
        // distance back from the head: -1 is no distance at all
        let back: u64 = (-(relative_blocknumber + 1)) as u64;
        if back <= current_blocknumber {
            current_blocknumber - back
        } else {
            0
        }
    } else {
        relative_blocknumber as u64
    }
}

/// Resolves block markers to the pair of first and last block under the current head.
pub fn resolve_block_numbers(current_block: u64, start_block: i64, end_block: i64) -> (blocks: (u64, u64))
    ensures
        blocks.0 as int == resolved_start(current_block as int, start_block as int, end_block as int),
        blocks.1 as int == resolved_end(current_block as int, end_block as int),
        blocks.0 <= blocks.1 <= current_block,
{
    let resolved_end_block = resolve_negative_block_number(current_block, end_block);
    let end = if resolved_end_block < current_block {
        resolved_end_block
    } else {
        current_block
    };
    let resolved_start_block = resolve_negative_block_number(current_block, start_block);
    let start = if resolved_start_block < end {
        resolved_start_block
    } else {
        end
    };
    (start, end)
}

/// Every pair of markers resolves to an ordered window that ends at or before the head.
pub proof fn lemma_resolved_window_within_head(head: u64, start_marker: i64, end_marker: i64)
    ensures
        0 <= resolved_start(head as int, start_marker as int, end_marker as int) <= resolved_end(
            head as int,
            end_marker as int,
        ) <= head,
{
}

/// A negative marker `-n` resolves to the block `n - 1` before the head, so `-1` to the
/// head itself, and to block zero where the chain is shorter than that.
pub proof fn lemma_negative_marker_counts_from_head(head: u64, n: int)
    requires
        n >= 1,
    ensures
        n <= head + 1 ==> resolved_marker(head as int, -n) == head - (n - 1),
        n > head + 1 ==> resolved_marker(head as int, -n) == 0,
        resolved_end(head as int, -n) == resolved_marker(head as int, -n),
{
}

} // verus!
