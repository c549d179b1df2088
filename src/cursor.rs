use vstd::prelude::*;

use crate::error::{SMParserError, SMParserResult};

verus! {

/// A read position over a byte buffer owned elsewhere. The position never
/// leaves `[0, buffer length]`.
#[derive(Debug)]
pub struct Cursor<'a> {
    buf: &'a Vec<u8>,
    pos: u64,
}

/// Where a move by `n` bytes from `p` lands in a buffer of `len` bytes, or
/// `None` where it would leave the buffer.
pub open spec fn skip_target(p: nat, n: int, len: nat) -> Option<nat> {
    if 0 <= p + n && p + n <= len {
        Some((p + n) as nat)
    } else {
        None
    }
}

/// The first multiple of 8 at or after `p`.
pub open spec fn align8_target(p: nat) -> nat {
    (p + (8 - p % 8) % 8) as nat
}

impl<'a> Cursor<'a> {
    /// The bytes the cursor reads.
    pub closed spec fn bytes(&self) -> Seq<u8> {
        self.buf@
    }

    /// The current position.
    pub closed spec fn pos(&self) -> nat {
        self.pos as nat
    }

    /// The position lies within the buffer, whose length fits in a `usize`.
    pub open spec fn wf(&self) -> bool {
        self.pos() <= self.bytes().len() <= usize::MAX
    }

    /// A cursor at the start of `buf`.
    pub fn new(buf: &'a Vec<u8>) -> (r: Cursor<'a>)
        ensures
            r.bytes() == buf@,
            r.pos() == 0,
            r.wf(),
    {
        let _ = buf.len();
        Cursor { buf, pos: 0 }
    }

    /// The current position.
    pub fn position(&self) -> (r: u64)
        ensures
            r == self.pos(),
    {
        self.pos
    }

    /// The buffer the cursor reads.
    pub fn get_ref(&self) -> (r: &'a Vec<u8>)
        ensures
            r@ == self.bytes(),
    {
        self.buf
    }

    /// Moves to the absolute position `p`; fails, leaving the cursor where it
    /// was, if `p` lies past the end of the buffer.
    pub fn seek_to(&mut self, p: u64) -> (r: SMParserResult<u64>)
        requires
            old(self).wf(),
        ensures
            final(self).wf(),
            final(self).bytes() == old(self).bytes(),
            p <= old(self).bytes().len() ==> r == Ok::<u64, SMParserError>(p) && final(self).pos()
                == p,
            p > old(self).bytes().len() ==> r == Err::<u64, SMParserError>(SMParserError::Seek)
                && final(self).pos() == old(self).pos(),
    {
        if p <= self.buf.len() as u64 {
            self.pos = p;
            Ok(p)
        } else {
            Err(SMParserError::Seek)
        }
    }
}

/// Moves the cursor by `bytes` (backward where negative) and returns the new
/// position; fails, leaving the cursor where it was, if the move would leave
/// the buffer.
pub fn cursor_skip(cursor: &mut Cursor, bytes: i64) -> (r: SMParserResult<u64>)
    requires
        old(cursor).wf(),
    ensures
        final(cursor).wf(),
        final(cursor).bytes() == old(cursor).bytes(),
        r is Ok ==> r->Ok_0 as nat == final(cursor).pos(),
        match skip_target(old(cursor).pos(), bytes as int, old(cursor).bytes().len()) {
            Some(q) => r == Ok::<u64, SMParserError>(q as u64) && final(cursor).pos() == q,
            None => r == Err::<u64, SMParserError>(SMParserError::Seek) && final(cursor).pos()
                == old(cursor).pos(),
        },
{
    let p: u64 = cursor.pos;
    let len: u64 = cursor.buf.len() as u64;
    if bytes >= 0 {
        let d: u64 = bytes as u64;
        if d <= len - p {
            cursor.pos = p + d;
            Ok(p + d)
        } else {
            Err(SMParserError::Seek)
        }
    } else {
        let d: u64 = (-(bytes as i128)) as u64;
        if d <= p {
            cursor.pos = p - d;
            Ok(p - d)
        } else {
            Err(SMParserError::Seek)
        }
    }
}

/// Moves the cursor forward to the next multiple of 8 (not at all where it
/// is already aligned) and returns the new position; fails, leaving the
/// cursor where it was, if that position lies past the end of the buffer.
pub fn cursor_align8(cursor: &mut Cursor) -> (r: SMParserResult<u64>)
    requires
        old(cursor).wf(),
    ensures
        final(cursor).wf(),
        final(cursor).bytes() == old(cursor).bytes(),
        r is Ok ==> r->Ok_0 as nat == final(cursor).pos(),
        align8_target(old(cursor).pos()) <= old(cursor).bytes().len() ==> r == Ok::<
            u64,
            SMParserError,
        >(align8_target(old(cursor).pos()) as u64) && final(cursor).pos() == align8_target(
            old(cursor).pos(),
        ),
        align8_target(old(cursor).pos()) > old(cursor).bytes().len() ==> r == Err::<
            u64,
            SMParserError,
        >(SMParserError::Seek) && final(cursor).pos() == old(cursor).pos(),
{
    let pad: u64 = (8 - (cursor.position() % 8)) % 8;
    cursor_skip(cursor, pad as i64)
}

/// Aligning twice lands where aligning once does.
pub proof fn lemma_align8_idempotent(p: nat)
    ensures
        align8_target(align8_target(p)) == align8_target(p),
{
}

/// Aligning from `p` adds the least pad that reaches a multiple of 8: the
/// result is a multiple of 8, never behind `p`, and less than 8 bytes ahead.
pub proof fn lemma_align8_forward(p: nat)
    ensures
        align8_target(p) == p + (8 - p % 8) % 8,
        align8_target(p) % 8 == 0,
        p <= align8_target(p) < p + 8,
        p % 8 == 0 ==> align8_target(p) == p,
{
}

/// A move by `n` followed by a move by `-n` returns to the starting
/// position, whenever the first move stays within the buffer.
pub proof fn lemma_skip_round_trip(p: nat, n: int, len: nat)
    requires
        p <= len,
        skip_target(p, n, len) is Some,
    ensures
        skip_target(skip_target(p, n, len)->0, -n, len) == Some(p),
{
}

} // verus!
