//! Scanning of raw transport bytes: where the next delimiter lies.

use vstd::prelude::*;

verus! {

/// The space that separates the fields of a start line.
pub const SP: u8 = 0x20;

/// The line feed that ends every line; a carriage return before it is tolerated.
pub const LF: u8 = 0x0A;

/// The index of the first `byte` in `s` at or after `from`, or `s.len()` when
/// there is none.
pub open spec fn next_index(s: Seq<u8>, from: int, byte: u8) -> int
    decreases s.len() - from,
{
    if from < 0 || from >= s.len() {
        s.len() as int
    } else if s[from] == byte {
        from
    } else {
        next_index(s, from + 1, byte)
    }
}

/// `next_index` is the least index at or after `from` that holds `byte`.
pub proof fn lemma_next_index(s: Seq<u8>, from: int, byte: u8)
    requires
        0 <= from <= s.len(),
    ensures
        from <= next_index(s, from, byte) <= s.len(),
        next_index(s, from, byte) < s.len() ==> s[next_index(s, from, byte)] == byte,
        forall|j: int| from <= j < next_index(s, from, byte) ==> s[j] != byte,
    decreases s.len() - from,
{
    if from < s.len() && s[from] != byte {
        lemma_next_index(s, from + 1, byte);
    }
}

/// An index that holds `byte` with none before it, from `from` on, is
/// `next_index`.
proof fn lemma_next_index_is(s: Seq<u8>, from: int, byte: u8, at: int)
    requires
        0 <= from <= at <= s.len(),
        at < s.len() ==> s[at] == byte,
        forall|j: int| from <= j < at ==> s[j] != byte,
    ensures
        next_index(s, from, byte) == at,
    decreases at - from,
{
    if from < at {
        lemma_next_index_is(s, from + 1, byte, at);
    }
}

/// Finds the first `byte` at or after `from`.
pub fn find_byte(buf: &[u8], from: usize, byte: u8) -> (at: Option<usize>)
    ensures
        match at {
            Some(i) => from <= i < buf@.len() && i == next_index(buf@, from as int, byte),
            None => next_index(buf@, from as int, byte) == buf@.len(),
        },
{
    let mut i: usize = from;
    while i < buf.len()
        invariant
            from <= i,
            forall|j: int| from <= j < i && j < buf@.len() ==> buf@[j] != byte,
        decreases buf@.len() - i,
    {
        if buf[i] == byte {
            proof {
                lemma_next_index_is(buf@, from as int, byte, i as int);
            }
            return Some(i);
        }
        i += 1;
    }
    proof {
        if from <= buf@.len() {
            lemma_next_index_is(buf@, from as int, byte, buf@.len() as int);
        }
    }
    None
}

} // verus!
