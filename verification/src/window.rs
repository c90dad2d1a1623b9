//! Bounded windows of indexes into a sequence.
//!
//! Each function picks a run of consecutive indexes of a sequence of `length`
//! items, placed relative to an index `center`. The windows around and behind
//! `center` are cut where they would cross an end of the sequence. The window
//! that ends with `center` keeps its size where it can: it starts at index 0
//! where fewer indexes than asked for lie at or before `center`.

use std::ops::Range;
use vstd::prelude::*;

verus! {

/// The smaller of two integers.
pub open spec fn lesser(a: int, b: int) -> int {
    if a <= b {
        a
    } else {
        b
    }
}

/// The larger of two integers.
pub open spec fn greater(a: int, b: int) -> int {
    if a >= b {
        a
    } else {
        b
    }
}

/// Where a window of `count` indexes that ends with `center` starts, once it
/// has been slid right so as not to start before index 0.
pub open spec fn preceding_start(center: int, length: int, count: int) -> int {
    if length <= count {
        0
    } else {
        greater(center + 1 - count, 0)
    }
}

/// The first index of the window around `center`: `padding` positions before
/// it, but not before index 0 and not past the end of the sequence.
pub open spec fn center_start(center: int, length: int, padding: int) -> int {
    lesser(greater(center - padding, 0), length)
}

/// The end of the window around `center`: behind the position `padding`
/// after it, but not past the end of the sequence.
pub open spec fn center_end(center: int, length: int, padding: int) -> int {
    lesser(length, center + padding + 1)
}

/// The first index of the window that begins with `center`: `center` itself,
/// but not past the end of the sequence.
pub open spec fn subsequent_start(center: int, length: int) -> int {
    lesser(center, length)
}

/// The end of the window that begins with `center`: `count` positions on,
/// but not past the end of the sequence.
pub open spec fn subsequent_end(center: int, length: int, count: int) -> int {
    lesser(length, center + count)
}

/// The `count` indexes that end with `center`; the first `count` indexes
/// where fewer than `count` lie at or before `center`; every index where the
/// sequence has no more than `count` items.
pub fn preceding_indexes(center: usize, length: usize, count: usize) -> (window: Range<usize>)
    requires
        length <= count || center < usize::MAX,
    ensures
        window.start == preceding_start(center as int, length as int, count as int),
        window.end == window.start + lesser(length as int, count as int),
        center < length ==> window.end <= length,
        center < length && 0 < count ==> window.start <= center < window.end,
{
    if length <= count {
        return 0..length;
    }
    if count <= center + 1 {
        (center + 1 - count)..(center + 1)
    } else {
        0..count
    }
}

/// The indexes from `padding` before `center` to `padding` after it, cut at
/// both ends of the sequence: those of them that the sequence has. For a
/// `center` in the sequence the window holds it.
pub fn center_indexes(center: usize, length: usize, padding: usize) -> (window: Range<usize>)
    ensures
        window.start == center_start(center as int, length as int, padding as int),
        window.end == center_end(center as int, length as int, padding as int),
        window.start <= window.end <= length,
        center < length ==> window.start == greater(center - padding, 0),
        center < length ==> window.start <= center < window.end,
{
    let first: usize = if center >= padding {
        center - padding
    } else {
        0
    };
    if center >= length {
        let start: usize = if first > length {
            length
        } else {
            first
        };
        return start..length;
    }
    let behind: usize = length - center - 1;
    if padding >= behind {
        first..length
    } else {
        first..(center + padding + 1)
    }
}

/// The `count` indexes that begin with `center`, cut at the end of the
/// sequence: those of them that the sequence has. Where `center` is the
/// length of the sequence or more, none.
pub fn subsequent_indexes(center: usize, length: usize, count: usize) -> (window: Range<usize>)
    ensures
        window.start == subsequent_start(center as int, length as int),
        window.end == subsequent_end(center as int, length as int, count as int),
        window.start <= window.end <= length,
        center <= length ==> window.start == center,
        center < length && 0 < count ==> window.start <= center < window.end,
{
    if center >= length {
        return length..length;
    }
    let left: usize = length - center;
    if count >= left {
        center..length
    } else {
        center..(center + count)
    }
}

} // verus!
