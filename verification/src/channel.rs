//! The channel to the kernel: reads that can be canceled, writes that are all or nothing, and the
//! flags of its descriptors.
use vstd::prelude::*;

use crate::errno::Errnos;
use crate::error::{os_error, Error};

verus! {

/// The descriptor flag that closes a descriptor in a new program (`FD_CLOEXEC`, which is the same
/// on Linux, macOS and the BSDs).
pub const FD_CLOEXEC: i32 = 1;

/// What a wait for the kernel, or for the end of the session, ended with.
#[derive(Debug)]
pub enum Waited<T> {
    /// What was waited for is there.
    Completed(Result<T, Error>),
    /// The session is over. What was waited for may have come through all the same.
    Cancelled(Option<Result<T, Error>>),
}

/// Whether a wait comes to `outcome`: a canceled one that brought nothing is an error.
pub open spec fn resolves_to<T>(errnos: Errnos, waited: Waited<T>, outcome: Result<T, Error>) -> bool {
    match waited {
        Waited::Completed(result) => outcome == result,
        Waited::Cancelled(Some(result)) => outcome == result,
        Waited::Cancelled(None) => outcome matches Err(error) && error@ == os_error(
            errnos.ecanceled,
        ),
    }
}

/// What a wait comes to.
pub fn resolve<T>(errnos: Errnos, waited: Waited<T>) -> (outcome: Result<T, Error>)
    ensures
        resolves_to(errnos, waited, outcome),
{
    match waited {
        Waited::Completed(result) => result,
        Waited::Cancelled(Some(result)) => result,
        Waited::Cancelled(None) => Err(Error::from_raw_os_error(errnos.ecanceled)),
    }
}

/// The sum of the lengths of a number of buffers.
pub open spec fn total_len(lens: Seq<usize>) -> int
    decreases lens.len(),
{
    if lens.len() == 0 {
        0
    } else {
        lens[0] + total_len(lens.drop_first())
    }
}

proof fn lemma_total_len_nonnegative(lens: Seq<usize>)
    ensures
        total_len(lens) >= 0,
    decreases lens.len(),
{
    if lens.len() > 0 {
        lemma_total_len_nonnegative(lens.drop_first());
    }
}

/// Whether a write of buffers with the given lengths wrote all of them, if it wrote so many bytes.
pub fn wrote_everything(lens: &Vec<usize>, written: usize) -> (complete: bool)
    ensures
        complete == (written == total_len(lens@)),
{
    let mut rest: usize = written;
    let mut i: usize = 0;
    assert(lens@.skip(0) =~= lens@);
    while i < lens.len()
        invariant
            i <= lens.len(),
            written - rest + total_len(lens@.skip(i as int)) == total_len(lens@),
            rest <= written,
        decreases lens.len() - i,
    {
        assert(lens@.skip(i as int).drop_first() =~= lens@.skip(i as int + 1));
        if lens[i] > rest {
            proof {
                lemma_total_len_nonnegative(lens@.skip(i as int + 1));
            }
            return false;
        }
        rest = rest - lens[i];
        i = i + 1;
    }
    rest == 0
}

/// The descriptor flags with which a descriptor stays open in a new program, if they are not those
/// that it has.
pub fn without_cloexec(flags: i32) -> (cleared: Option<i32>)
    ensures
        cleared is Some <==> flags & FD_CLOEXEC == FD_CLOEXEC,
        cleared matches Some(value) ==> value == flags & !FD_CLOEXEC && value & FD_CLOEXEC == 0
            && value | FD_CLOEXEC == flags,
{
    if flags & FD_CLOEXEC == FD_CLOEXEC {
        assert(flags & 1 == 1 ==> (flags & !1) & 1 == 0 && (flags & !1) | 1 == flags)
            by (bit_vector);
        Some(flags & !FD_CLOEXEC)
    } else {
        None
    }
}

/// The status flags with which reads and writes return at once, and all else is as it was, on a
/// system whose flag for that is `nonblock` (`O_NONBLOCK`).
pub fn with_nonblock(flags: i32, nonblock: i32) -> (set: i32)
    ensures
        set == flags | nonblock,
        set & nonblock == nonblock,
        set & !nonblock == flags & !nonblock,
{
    assert((flags | nonblock) & nonblock == nonblock && (flags | nonblock) & !nonblock == flags
        & !nonblock) by (bit_vector);
    flags | nonblock
}

/// A wait brings what was waited for, also where the session was over before it came; and it is an
/// error of the operating system with the code for "canceled" only if nothing came.
pub proof fn lemma_wait_brings_what_came<T>(
    errnos: Errnos,
    result: Result<T, Error>,
    outcome: Result<T, Error>,
)
    ensures
        resolves_to(errnos, Waited::Completed(result), outcome) <==> outcome == result,
        resolves_to(errnos, Waited::Cancelled(Some(result)), outcome) <==> outcome == result,
        resolves_to(errnos, Waited::Cancelled(None), outcome) ==> (outcome matches Err(error)
            && error.os == Some(errnos.ecanceled)),
{
}

/// The length of buffers is that of the first few with that of the others, and that of a single
/// buffer is its own.
pub proof fn lemma_lengths_add_up(front: Seq<usize>, back: Seq<usize>)
    ensures
        total_len(front + back) == total_len(front) + total_len(back),
        front.len() == 0 ==> total_len(front) == 0,
        front.len() == 1 ==> total_len(front) == front[0],
    decreases front.len(),
{
    if front.len() == 0 {
        assert(front + back =~= back);
    } else {
        assert((front + back).drop_first() =~= front.drop_first() + back);
        lemma_lengths_add_up(front.drop_first(), back);
        if front.len() == 1 {
            assert(total_len(front.drop_first()) == 0);
        }
    }
}

} // verus!
