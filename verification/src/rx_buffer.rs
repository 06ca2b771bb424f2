//! Reading received bytes out of the RS-485 receive queue.
//!
//! The protocol handler asks for up to `buf.len()` bytes at a time.  Nothing
//! is read when the queue is empty; otherwise bytes are taken from the queue
//! one by one into `buf` until it is full or the queue runs dry, and the
//! number of bytes read is reported.  The queue lives in the protocol
//! handler; this module decides, step by step, what to take from it and
//! where it goes.
use vstd::prelude::*;

verus! {

/// What the reader has to do next.
#[derive(Clone, Copy, Debug, PartialEq, Eq, Structural)]
pub enum ReadStep {
    /// Take the next byte from the queue; if there is one it goes to this
    /// index of the buffer.  Report with `read_bytes_next`.
    Pull(usize),
    /// The read has ended with this result.
    Done(Option<usize>),
}

/// The first step of a read into a buffer of `len` bytes.
pub open spec fn begin_step(queue_empty: bool, len: usize) -> ReadStep {
    if queue_empty {
        ReadStep::Done(None)
    } else if len == 0 {
        ReadStep::Done(Some(0))
    } else {
        ReadStep::Pull(0)
    }
}

/// The step after the queue gave `taken` for index `index` of a buffer of
/// `len` bytes.
pub open spec fn next_step(index: usize, len: usize, taken: Option<u8>) -> ReadStep {
    match taken {
        None => ReadStep::Done(Some(index)),
        Some(_) => if index + 1 >= len {
            ReadStep::Done(Some(len))
        } else {
            ReadStep::Pull((index + 1) as usize)
        },
    }
}

/// Starts a read into a buffer of `len` bytes, given whether the queue is
/// empty.
pub fn read_bytes_begin(queue_empty: bool, len: usize) -> (step: ReadStep)
    ensures
        step == begin_step(queue_empty, len),
{
    if queue_empty {
        ReadStep::Done(None)
    } else if len == 0 {
        ReadStep::Done(Some(0))
    } else {
        ReadStep::Pull(0)
    }
}

/// Takes what the queue gave for `index`, stores a byte there, and says
/// what to do next.
pub fn read_bytes_next(buf: &mut [u8], index: usize, taken: Option<u8>) -> (step: ReadStep)
    requires
        index < old(buf)@.len(),
    ensures
        step == next_step(index, old(buf)@.len() as usize, taken),
        final(buf)@ == match taken {
            Some(v) => old(buf)@.update(index as int, v),
            None => old(buf)@,
        },
{
    match taken {
        None => ReadStep::Done(Some(index)),
        Some(v) => {
            buf[index] = v;
            if index + 1 >= buf.len() {
                ReadStep::Done(Some(buf.len()))
            } else {
                ReadStep::Pull(index + 1)
            }
        },
    }
}

/// What the queue gives next when it would give `takes` in turn: once they
/// run out it is empty.
pub open spec fn next_take(takes: Seq<Option<u8>>) -> Option<u8> {
    if takes.len() > 0 {
        takes[0]
    } else {
        None
    }
}

/// What the queue gives after the next one.
pub open spec fn rest_takes(takes: Seq<Option<u8>>) -> Seq<Option<u8>> {
    if takes.len() > 0 {
        takes.drop_first()
    } else {
        takes
    }
}

/// The bytes that the queue gives before it runs dry, at most `limit` of
/// them.
pub open spec fn leading_takes(takes: Seq<Option<u8>>, limit: nat) -> Seq<u8>
    decreases limit,
{
    if limit == 0 {
        Seq::empty()
    } else {
        match next_take(takes) {
            Some(v) => seq![v] + leading_takes(rest_takes(takes), (limit - 1) as nat),
            None => Seq::empty(),
        }
    }
}

/// A read driven from `step` into a buffer of `len` bytes while the queue
/// gives `takes` in turn: the bytes stored, in order, and the result.
pub open spec fn drive_read(step: ReadStep, len: usize, takes: Seq<Option<u8>>) -> (
    Seq<u8>,
    Option<usize>,
)
    decreases len - match step {
        ReadStep::Pull(i) => i as int,
        ReadStep::Done(_) => len as int,
    },
{
    match step {
        ReadStep::Done(r) => (Seq::empty(), r),
        ReadStep::Pull(i) => if i >= len {
            (Seq::empty(), None)
        } else {
            let taken = next_take(takes);
            let (stored, r) = drive_read(next_step(i, len, taken), len, rest_takes(takes));
            match taken {
                Some(v) => (seq![v] + stored, r),
                None => (stored, r),
            }
        },
    }
}

proof fn lemma_drive_read_from(i: usize, len: usize, takes: Seq<Option<u8>>)
    requires
        i < len,
    ensures
        ({
            let bytes = leading_takes(takes, (len - i) as nat);
            drive_read(ReadStep::Pull(i), len, takes) == (bytes, Some((i + bytes.len()) as usize))
        }),
    decreases len - i,
{
    lemma_leading_takes_bound(takes, (len - i) as nat);
    reveal_with_fuel(drive_read, 2);
    match next_take(takes) {
        Some(v) => {
            if i + 1 < len {
                lemma_drive_read_from((i + 1) as usize, len, rest_takes(takes));
                lemma_leading_takes_bound(rest_takes(takes), (len - i - 1) as nat);
            } else {
                assert(leading_takes(rest_takes(takes), 0) == Seq::<u8>::empty());
                assert(seq![v] + Seq::<u8>::empty() =~= seq![v]);
            }
        },
        None => {},
    }
}

/// A read into a buffer of `len` bytes gives `None` when the queue is
/// empty.  Otherwise it stores, from the start of the buffer and in order,
/// the bytes that the queue gives before it runs dry, at most `len` of them,
/// and gives `Some` of their number.
pub proof fn lemma_read_bytes(queue_empty: bool, len: usize, takes: Seq<Option<u8>>)
    ensures
        ({
            let bytes = leading_takes(takes, len as nat);
            drive_read(begin_step(queue_empty, len), len, takes) == if queue_empty {
                (Seq::<u8>::empty(), None::<usize>)
            } else {
                (bytes, Some(bytes.len() as usize))
            }
        }),
        leading_takes(takes, len as nat).len() <= len,
{
    lemma_leading_takes_bound(takes, len as nat);
    if !queue_empty && len > 0 {
        lemma_drive_read_from(0, len, takes);
    }
}

/// At most `limit` bytes are counted.
pub proof fn lemma_leading_takes_bound(takes: Seq<Option<u8>>, limit: nat)
    ensures
        leading_takes(takes, limit).len() <= limit,
    decreases limit,
{
    if limit > 0 {
        lemma_leading_takes_bound(rest_takes(takes), (limit - 1) as nat);
    }
}

} // verus!
