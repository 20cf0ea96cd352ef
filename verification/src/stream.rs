use vstd::prelude::*;
use crate::error::{ErrorModel, GridError};

verus! {

/// A position for a stream seek, with standard semantics: from the start,
/// from the current offset, or from the end.
#[derive(Copy, Clone, Debug)]
pub enum StreamPos {
    Start(u64),
    Current(i64),
    End(i64),
}

/// Translates a seek position into the argument pair a foreign handle's
/// `seek(offset, whence)` method expects, with the whence convention
/// 0 = start, 1 = current, 2 = end.
pub fn seek_args(pos: StreamPos) -> (r: (i64, u8))
    requires
        pos matches StreamPos::Start(off) ==> off <= i64::MAX,
    ensures
        match pos {
            StreamPos::Start(off) => r.0 == off && r.1 == 0,
            StreamPos::Current(off) => r.0 == off && r.1 == 1,
            StreamPos::End(off) => r.0 == off && r.1 == 2,
        },
{
    match pos {
        StreamPos::Start(off) => (off as i64, 0),
        StreamPos::Current(off) => (off, 1),
        StreamPos::End(off) => (off, 2),
    }
}

/// Interprets what a foreign handle answered to a `seek` call. A
/// non-negative integer is the new absolute offset; a negative integer, or
/// any failure to produce an integer at all (an exception, a malformed
/// return value — carried here as the description in `Err`), surfaces as an
/// I/O-category error, never as a format error and never as a silent wrong
/// offset.
pub fn interpret_seek_result(raw: Result<i64, String>) -> (r: Result<u64, GridError>)
    ensures
        match raw {
            Ok(n) => {
                if n >= 0 {
                    r matches Ok(off) && off == n
                } else {
                    r matches Err(e) && e@ is Io
                }
            },
            Err(m) => r matches Err(e) && e@ == ErrorModel::Io(m@),
        },
{
    match raw {
        Ok(n) => {
            if n >= 0 {
                Ok(n as u64)
            } else {
                Err(GridError::Io(String::from_str("foreign handle returned a negative seek offset")))
            }
        },
        Err(m) => Err(GridError::Io(m)),
    }
}

/// Appends one chunk read from a stream to the bytes accumulated so far,
/// and reports whether the stream is exhausted (an empty chunk signals end
/// of stream). A short read is not an error: whatever arrived is kept, and
/// later chunks accumulate after it.
pub fn append_chunk(acc: &mut Vec<u8>, chunk: &Vec<u8>) -> (done: bool)
    ensures
        final(acc)@ == old(acc)@ + chunk@,
        done <==> chunk@.len() == 0,
{
    let ghost acc0 = acc@;
    let mut i: usize = 0;
    while i < chunk.len()
        invariant
            i <= chunk@.len(),
            acc@ == acc0 + chunk@.take(i as int),
        decreases chunk@.len() - i,
    {
        acc.push(chunk[i]);
        proof {
            assert(acc0 + chunk@.take(i as int) + seq![chunk@[i as int]] =~= acc0 + chunk@.take(
                i as int + 1,
            ));
        }
        i = i + 1;
    }
    proof {
        assert(acc@ =~= acc0 + chunk@);
    }
    chunk.len() == 0
}

/// Keeps from one chunk exactly what a `read(max)` call may hand back: the
/// whole chunk when it fits, its first `max` bytes otherwise. A chunk
/// shorter than `max` is a short read and is returned as is, never treated
/// as an error; end-of-stream detection is the caller's responsibility.
pub fn take_prefix(chunk: &Vec<u8>, max: usize) -> (r: Vec<u8>)
    ensures
        r@ == chunk@.take(if chunk@.len() <= max {
            chunk@.len() as int
        } else {
            max as int
        }),
{
    let n: usize = if chunk.len() < max {
        chunk.len()
    } else {
        max
    };
    let mut out: Vec<u8> = Vec::new();
    let mut i: usize = 0;
    while i < n
        invariant
            i <= n,
            n <= chunk@.len(),
            out@ == chunk@.take(i as int),
        decreases n - i,
    {
        out.push(chunk[i]);
        proof {
            assert(chunk@.take(i as int) + seq![chunk@[i as int]] =~= chunk@.take(i as int + 1));
        }
        i = i + 1;
    }
    out
}

/// The bytes delivered by a sequence of reads, in order: the concatenation
/// of the chunks.
pub open spec fn concat_chunks(chunks: Seq<Seq<u8>>) -> Seq<u8>
    decreases chunks.len(),
{
    if chunks.len() == 0 {
        Seq::empty()
    } else {
        concat_chunks(chunks.drop_last()) + chunks.last()
    }
}

} // verus!

