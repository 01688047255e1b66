//! Cursor-addressable editing of a single text buffer.
//!
//! A text field is a buffer of characters together with a cursor position
//! in `[0, len]`.  Every operation keeps the cursor in that range:
//! Left/Right move by one position and clamp, Home/End jump to the ends,
//! a printable character is inserted at the cursor (which then advances),
//! Backspace removes the character before the cursor (a no-op at position
//! 0) and Delete removes the character at the cursor (a no-op at the end).

use vstd::prelude::*;

verus! {

/// The cursor is valid for the buffer: at most one past the last
/// character.
pub open spec fn cursor_wf(buf: Seq<char>, cursor: usize) -> bool {
    cursor <= buf.len()
}

/// Move the cursor one position left, stopping at the start.
pub fn move_cursor_left(cursor: &mut usize)
    ensures
        *final(cursor) == if *old(cursor) > 0 { (*old(cursor) - 1) as usize } else { 0usize },
{
    if *cursor > 0 {
        *cursor = *cursor - 1;
    }
}

/// Move the cursor one position right, stopping just past the last
/// character.
pub fn move_cursor_right(buf: &Vec<char>, cursor: &mut usize)
    ensures
        *final(cursor) == if *old(cursor) < buf@.len() {
            (*old(cursor) + 1) as usize
        } else {
            *old(cursor)
        },
{
    if *cursor < buf.len() {
        *cursor = *cursor + 1;
    }
}

/// Jump the cursor to the start of the buffer.
pub fn move_cursor_home(cursor: &mut usize)
    ensures
        *final(cursor) == 0usize,
{
    *cursor = 0;
}

/// Jump the cursor one past the last character of the buffer.
pub fn move_cursor_end(buf: &Vec<char>, cursor: &mut usize)
    ensures
        *final(cursor) == buf@.len(),
{
    *cursor = buf.len();
}

/// Insert `c` at the cursor and advance the cursor past it.
pub fn insert_char(buf: &mut Vec<char>, cursor: &mut usize, c: char)
    requires
        cursor_wf(old(buf)@, *old(cursor)),
    ensures
        final(buf)@ == old(buf)@.insert(*old(cursor) as int, c),
        *final(cursor) == *old(cursor) + 1,
        cursor_wf(final(buf)@, *final(cursor)),
{
    buf.insert(*cursor, c);
    proof {
        assert(buf.len() == buf@.len());
    }
    *cursor = *cursor + 1;
}

/// Remove the character immediately before the cursor and move the cursor
/// onto the gap; at position 0 nothing changes.
pub fn backspace_char(buf: &mut Vec<char>, cursor: &mut usize)
    requires
        cursor_wf(old(buf)@, *old(cursor)),
    ensures
        *old(cursor) == 0 ==> final(buf)@ == old(buf)@ && *final(cursor) == *old(cursor),
        *old(cursor) > 0 ==> final(buf)@ == old(buf)@.remove(*old(cursor) - 1)
            && *final(cursor) == *old(cursor) - 1,
        cursor_wf(final(buf)@, *final(cursor)),
{
    if *cursor > 0 {
        buf.remove(*cursor - 1);
        *cursor = *cursor - 1;
    }
}

/// Remove the character at the cursor without moving the cursor; one past
/// the last character nothing changes.
pub fn delete_char(buf: &mut Vec<char>, cursor: &mut usize)
    requires
        cursor_wf(old(buf)@, *old(cursor)),
    ensures
        *old(cursor) == old(buf)@.len() ==> final(buf)@ == old(buf)@,
        *old(cursor) < old(buf)@.len() ==> final(buf)@ == old(buf)@.remove(*old(cursor) as int),
        *final(cursor) == *old(cursor),
        cursor_wf(final(buf)@, *final(cursor)),
{
    if *cursor < buf.len() {
        buf.remove(*cursor);
    }
}

} // verus!
