//! Extraction of an archive into the scratch directory: which failures stop
//! it and which only cost one member.
//!
//! Reading the archive and writing the files is the caller's work. For every
//! member it reports what happened and is told whether to go on.

use vstd::prelude::*;

verus! {

/// What happened to one member of the archive.
#[derive(Debug, Clone, Copy, PartialEq, Eq, Structural)]
pub enum MemberEvent {
    /// The member's bytes were written to its file.
    Written,
    /// The directories above the member's file could not be created.
    DirectoryFailed,
    /// The member's file could not be created.
    CreateFailed,
    /// The member's bytes could not be read from the archive.
    ReadFailed,
}

/// Why extraction was given up.
#[derive(Debug, Clone, Copy, PartialEq, Eq, Structural)]
pub enum ExtractError {
    /// A directory of the scratch tree could not be created.
    Directory,
    /// The archive is damaged: a member could not be read.
    Read,
}

/// What to do after a member.
#[derive(Debug, Clone, Copy, PartialEq, Eq, Structural)]
pub enum Verdict {
    /// The member is extracted; go on with the next.
    Continue,
    /// The member is left out; go on with the next.
    Skip,
    /// Stop: the extraction has failed.
    Abort(ExtractError),
}

/// How many members were extracted and how many were left out.
#[derive(Debug, Clone, Copy, PartialEq, Eq, Structural)]
pub struct Extracted {
    pub written: usize,
    pub skipped: usize,
}

/// The verdict on a member. A file that cannot be created costs only that
/// member; a member that cannot be read, or a directory that cannot be
/// created, ends the extraction.
pub open spec fn verdict_for(event: MemberEvent) -> Verdict {
    match event {
        MemberEvent::Written => Verdict::Continue,
        MemberEvent::CreateFailed => Verdict::Skip,
        MemberEvent::DirectoryFailed => Verdict::Abort(ExtractError::Directory),
        MemberEvent::ReadFailed => Verdict::Abort(ExtractError::Read),
    }
}

/// How many of `events` have the verdict `verdict`.
pub open spec fn count_of(events: Seq<MemberEvent>, verdict: Verdict) -> nat
    decreases events.len(),
{
    if events.len() == 0 {
        0
    } else {
        count_of(events.drop_last(), verdict) + if verdict_for(events.last()) == verdict {
            1nat
        } else {
            0nat
        }
    }
}

/// The first fatal failure among `events`, if there is one.
pub open spec fn first_failure(events: Seq<MemberEvent>) -> Option<ExtractError>
    decreases events.len(),
{
    if events.len() == 0 {
        None
    } else {
        match first_failure(events.drop_last()) {
            Some(error) => Some(error),
            None => match verdict_for(events.last()) {
                Verdict::Abort(error) => Some(error),
                _ => None,
            },
        }
    }
}

/// The result of an extraction that saw `events`: the first fatal failure,
/// or else the numbers of members extracted and left out.
pub open spec fn extraction_of(events: Seq<MemberEvent>) -> Result<Extracted, ExtractError> {
    match first_failure(events) {
        Some(error) => Err(error),
        None => Ok(
            Extracted {
                written: count_of(events, Verdict::Continue) as usize,
                skipped: count_of(events, Verdict::Skip) as usize,
            },
        ),
    }
}

/// Decides what to do after a member.
pub fn judge(event: MemberEvent) -> (verdict: Verdict)
    ensures
        verdict == verdict_for(event),
{
    match event {
        MemberEvent::Written => Verdict::Continue,
        MemberEvent::CreateFailed => Verdict::Skip,
        MemberEvent::DirectoryFailed => Verdict::Abort(ExtractError::Directory),
        MemberEvent::ReadFailed => Verdict::Abort(ExtractError::Read),
    }
}

/// A count never exceeds the number of events.
pub proof fn count_is_bounded(events: Seq<MemberEvent>, verdict: Verdict)
    ensures
        count_of(events, verdict) <= events.len(),
    decreases events.len(),
{
    if events.len() > 0 {
        count_is_bounded(events.drop_last(), verdict);
    }
}

/// Sums up an extraction from the events of its members, in order.
pub fn summarize(events: &Vec<MemberEvent>) -> (summary: Result<Extracted, ExtractError>)
    ensures
        summary == extraction_of(events@),
{
    let mut written: usize = 0;
    let mut skipped: usize = 0;
    let mut next: usize = 0;
    proof {
        assert(events@.take(0) =~= Seq::<MemberEvent>::empty());
    }
    while next < events.len()
        invariant
            next <= events@.len(),
            first_failure(events@.take(next as int)) is None,
            written == count_of(events@.take(next as int), Verdict::Continue),
            skipped == count_of(events@.take(next as int), Verdict::Skip),
        decreases events@.len() - next,
    {
        let ghost seen = events@.take(next + 1);
        proof {
            assert(seen.drop_last() =~= events@.take(next as int));
            assert(seen.last() == events@[next as int]);
            count_is_bounded(seen, Verdict::Continue);
            count_is_bounded(seen, Verdict::Skip);
        }
        match judge(events[next]) {
            Verdict::Continue => {
                written = written + 1;
            },
            Verdict::Skip => {
                skipped = skipped + 1;
            },
            Verdict::Abort(error) => {
                proof {
                    failure_is_final(seen, events@);
                }
                return Err(error);
            },
        }
        next = next + 1;
    }
    proof {
        assert(events@.take(next as int) =~= events@);
    }
    Ok(Extracted { written, skipped })
}

/// Once a fatal failure has been seen, later events do not change it.
pub proof fn failure_is_final(seen: Seq<MemberEvent>, events: Seq<MemberEvent>)
    requires
        seen.len() <= events.len(),
        seen == events.take(seen.len() as int),
        first_failure(seen) is Some,
    ensures
        first_failure(events) == first_failure(seen),
    decreases events.len(),
{
    if seen.len() < events.len() {
        let shorter = events.drop_last();
        assert(shorter.take(seen.len() as int) =~= seen);
        failure_is_final(seen, shorter);
    } else {
        assert(seen =~= events);
    }
}

/// Extraction fails exactly when some member could not be read or some
/// directory could not be created; members whose file could not be created
/// never make it fail.
pub proof fn only_fatal_events_fail(events: Seq<MemberEvent>)
    ensures
        extraction_of(events) is Err <==> exists|at: int|
            0 <= at < events.len() && #[trigger] verdict_for(events[at]) is Abort,
    decreases events.len(),
{
    if events.len() > 0 {
        let shorter = events.drop_last();
        only_fatal_events_fail(shorter);
        if exists|at: int| 0 <= at < shorter.len() && #[trigger] verdict_for(shorter[at]) is Abort {
            let at = choose|at: int|
                0 <= at < shorter.len() && #[trigger] verdict_for(shorter[at]) is Abort;
            assert(verdict_for(events[at]) is Abort);
        }
        if exists|at: int| 0 <= at < events.len() && #[trigger] verdict_for(events[at]) is Abort {
            let at = choose|at: int|
                0 <= at < events.len() && #[trigger] verdict_for(events[at]) is Abort;
            if at < shorter.len() {
                assert(verdict_for(shorter[at]) is Abort);
            }
        }
    }
}

} // verus!
