//! The transcode pass: which files are sent to the transcoder, with which
//! arguments, and what is done with the outcome.
//!
//! The pass itself (walking the directory, running the transcoder on a worker
//! pool, renaming and deleting files) is carried out by the caller. Every
//! decision it needs is made here.

use crate::sniff::{has_audio_signature, is_audio};
use crate::tree::{agree_except, agrees_at, removed, renamed, Tree};
use vstd::prelude::*;

verus! {

/// An entry found while walking the working root.
pub struct Candidate {
    /// The directory that holds the entry.
    pub directory: String,
    /// The entry's own name inside that directory.
    pub file_name: String,
    /// Whether the entry is a regular file.
    pub is_regular_file: bool,
    /// The leading bytes of the file, as far as they could be read. Empty for
    /// entries that are not regular files or cannot be read.
    pub prefix: Vec<u8>,
}

/// One file to transcode: the transcoder reads `source_name` and writes
/// `sibling_name`, both in `directory`.
pub struct Job {
    pub directory: String,
    pub source_name: String,
    pub sibling_name: String,
}

/// The mathematical value of a [`Job`].
pub ghost struct JobView {
    pub directory: Seq<char>,
    pub source_name: Seq<char>,
    pub sibling_name: Seq<char>,
}

impl View for Job {
    type V = JobView;

    open spec fn view(&self) -> JobView {
        JobView {
            directory: self.directory@,
            source_name: self.source_name@,
            sibling_name: self.sibling_name@,
        }
    }
}

impl JobView {
    /// Where the transcoder reads from.
    pub open spec fn source(self) -> (Seq<char>, Seq<char>) {
        (self.directory, self.source_name)
    }

    /// Where the transcoder writes to.
    pub open spec fn sibling(self) -> (Seq<char>, Seq<char>) {
        (self.directory, self.sibling_name)
    }

    /// Whether the sibling is named after the source, as planned jobs are.
    pub open spec fn well_formed(self) -> bool {
        self.sibling_name == sibling_of(self.source_name)
    }
}

/// The marker put in front of a file's name while it is being transcoded.
pub open spec fn marker() -> Seq<char> {
    "temp_"@
}

/// The name of the in-flight output next to a file called `file_name`.
pub open spec fn sibling_of(file_name: Seq<char>) -> Seq<char> {
    marker() + file_name
}

/// Computes the name of the in-flight output next to `file_name`.
pub fn sibling_name(file_name: &str) -> (name: String)
    ensures
        name@ == sibling_of(file_name@),
{
    let mut name = "temp_".to_string();
    name.append(file_name);
    name
}

/// Whether a candidate is sent to the transcoder: a regular file that opens
/// with the audio signature.
pub open spec fn eligible(candidate: Candidate) -> bool {
    candidate.is_regular_file && has_audio_signature(candidate.prefix@)
}

/// The job that transcodes `candidate`.
pub open spec fn job_for(candidate: Candidate) -> JobView {
    JobView {
        directory: candidate.directory@,
        source_name: candidate.file_name@,
        sibling_name: sibling_of(candidate.file_name@),
    }
}

/// The jobs of a pass over `candidates`: one for each eligible candidate, in
/// the order of the walk.
pub open spec fn planned(candidates: Seq<Candidate>) -> Seq<JobView>
    decreases candidates.len(),
{
    if candidates.len() == 0 {
        Seq::empty()
    } else if eligible(candidates.last()) {
        planned(candidates.drop_last()).push(job_for(candidates.last()))
    } else {
        planned(candidates.drop_last())
    }
}

/// The mathematical values of a list of jobs.
pub open spec fn job_views(jobs: Seq<Job>) -> Seq<JobView> {
    jobs.map_values(|job: Job| job@)
}

/// Decides whether `candidate` is transcoded, and if so how.
pub fn plan_job(candidate: &Candidate) -> (job: Option<Job>)
    ensures
        eligible(*candidate) ==> job.is_some() && job.unwrap()@ == job_for(*candidate),
        !eligible(*candidate) ==> job.is_none(),
{
    if candidate.is_regular_file && is_audio(candidate.prefix.as_slice()) {
        Some(
            Job {
                directory: candidate.directory.clone(),
                source_name: candidate.file_name.clone(),
                sibling_name: sibling_name(candidate.file_name.as_str()),
            },
        )
    } else {
        None
    }
}

/// Plans a pass over `candidates`: one job for each regular file that opens
/// with the audio signature, in the order of the walk, and nothing else.
pub fn plan_batch(candidates: &Vec<Candidate>) -> (jobs: Vec<Job>)
    ensures
        job_views(jobs@) == planned(candidates@),
{
    let mut jobs: Vec<Job> = Vec::new();
    let mut next: usize = 0;
    proof {
        assert(candidates@.take(0) =~= Seq::<Candidate>::empty());
        assert(job_views(jobs@) =~= planned(candidates@.take(0)));
    }
    while next < candidates.len()
        invariant
            next <= candidates@.len(),
            job_views(jobs@) == planned(candidates@.take(next as int)),
        decreases candidates@.len() - next,
    {
        let ghost before = jobs@;
        let ghost seen = candidates@.take(next + 1);
        proof {
            assert(seen.drop_last() =~= candidates@.take(next as int));
            assert(seen.last() == candidates@[next as int]);
        }
        match plan_job(&candidates[next]) {
            Some(job) => {
                jobs.push(job);
                proof {
                    assert(job_views(jobs@) =~= job_views(before).push(job@));
                }
            },
            None => {},
        }
        next = next + 1;
    }
    proof {
        assert(candidates@.take(next as int) =~= candidates@);
    }
    jobs
}

/// The argument list of one transcoder run: read `input`, change the tempo
/// by the factor written in `tempo`, copy no video, write `output`, overwrite
/// it if it exists, report errors only.
pub open spec fn transcoder_arguments(input: Seq<char>, output: Seq<char>, tempo: Seq<char>) -> Seq<
    Seq<char>,
> {
    seq![
        "-i"@,
        input,
        "-filter:a"@,
        "atempo="@ + tempo,
        "-vn"@,
        output,
        "-y"@,
        "-loglevel"@,
        "error"@,
    ]
}

/// The texts of a list of strings.
pub open spec fn texts(strings: Seq<String>) -> Seq<Seq<char>> {
    strings.map_values(|text: String| text@)
}

/// Builds the argument list of one transcoder run. `tempo` is the multiplier
/// in decimal notation.
pub fn transcoder_args(input: &str, output: &str, tempo: &str) -> (args: Vec<String>)
    ensures
        texts(args@) == transcoder_arguments(input@, output@, tempo@),
{
    let mut filter = "atempo=".to_string();
    filter.append(tempo);
    let mut args: Vec<String> = Vec::new();
    args.push("-i".to_string());
    args.push(input.to_string());
    args.push("-filter:a".to_string());
    args.push(filter);
    args.push("-vn".to_string());
    args.push(output.to_string());
    args.push("-y".to_string());
    args.push("-loglevel".to_string());
    args.push("error".to_string());
    proof {
        assert(texts(args@) =~= transcoder_arguments(input@, output@, tempo@));
    }
    args
}

/// How a transcoder run ended. Anything but a clean exit, a failure to launch
/// included, counts as failed.
#[derive(Debug, Clone, Copy, PartialEq, Eq, Structural)]
pub enum TranscodeResult {
    Succeeded,
    Failed,
}

/// What to do with the files of a job once the transcoder has ended.
#[derive(Debug, Clone, Copy, PartialEq, Eq, Structural)]
pub enum Settlement {
    /// Rename the sibling over the source.
    Replace,
    /// Leave the source alone; delete the sibling if `remove_sibling`.
    Discard { remove_sibling: bool },
}

/// What became of a candidate.
#[derive(Debug, Clone, Copy, PartialEq, Eq, Structural)]
pub enum TranscodeOutcome {
    SkippedNotAudio,
    Transcoded,
    Failed,
}

/// The settlement of a job whose transcoder ended with `result`, given
/// whether the sibling exists afterwards.
pub open spec fn settlement_for(result: TranscodeResult, sibling_exists: bool) -> Settlement {
    match result {
        TranscodeResult::Succeeded => Settlement::Replace,
        TranscodeResult::Failed => Settlement::Discard { remove_sibling: sibling_exists },
    }
}

/// Decides what to do with the files of a job: on success the sibling
/// replaces the source, on failure the source stays and a sibling that was
/// left behind is deleted.
pub fn settle(result: TranscodeResult, sibling_exists: bool) -> (settlement: Settlement)
    ensures
        settlement == settlement_for(result, sibling_exists),
{
    match result {
        TranscodeResult::Succeeded => Settlement::Replace,
        TranscodeResult::Failed => Settlement::Discard { remove_sibling: sibling_exists },
    }
}

/// The outcome to report for a candidate: `None` when it was not sent to the
/// transcoder, else how its transcoder run ended.
pub open spec fn outcome_for(result: Option<TranscodeResult>) -> TranscodeOutcome {
    match result {
        None => TranscodeOutcome::SkippedNotAudio,
        Some(TranscodeResult::Succeeded) => TranscodeOutcome::Transcoded,
        Some(TranscodeResult::Failed) => TranscodeOutcome::Failed,
    }
}

/// Tells what became of a candidate.
pub fn outcome_of(result: Option<TranscodeResult>) -> (outcome: TranscodeOutcome)
    ensures
        outcome == outcome_for(result),
{
    match result {
        None => TranscodeOutcome::SkippedNotAudio,
        Some(TranscodeResult::Succeeded) => TranscodeOutcome::Transcoded,
        Some(TranscodeResult::Failed) => TranscodeOutcome::Failed,
    }
}

/// What a pass reports: how many candidates were transcoded, how many failed
/// and how many were not audio.
#[derive(Debug, Clone, Copy, PartialEq, Eq, Structural)]
pub struct PassReport {
    pub transcoded: usize,
    pub failed: usize,
    pub skipped: usize,
}

/// How many of `outcomes` are `outcome`.
pub open spec fn outcomes_of(outcomes: Seq<TranscodeOutcome>, outcome: TranscodeOutcome) -> nat
    decreases outcomes.len(),
{
    if outcomes.len() == 0 {
        0
    } else {
        outcomes_of(outcomes.drop_last(), outcome) + if outcomes.last() == outcome {
            1nat
        } else {
            0nat
        }
    }
}

/// A count never exceeds the number of outcomes.
pub proof fn outcomes_are_bounded(outcomes: Seq<TranscodeOutcome>, outcome: TranscodeOutcome)
    ensures
        outcomes_of(outcomes, outcome) <= outcomes.len(),
    decreases outcomes.len(),
{
    if outcomes.len() > 0 {
        outcomes_are_bounded(outcomes.drop_last(), outcome);
    }
}

/// Every candidate is counted once: the three counts add up to the number of
/// outcomes.
pub proof fn outcomes_add_up(outcomes: Seq<TranscodeOutcome>)
    ensures
        outcomes_of(outcomes, TranscodeOutcome::Transcoded) + outcomes_of(
            outcomes,
            TranscodeOutcome::Failed,
        ) + outcomes_of(outcomes, TranscodeOutcome::SkippedNotAudio) == outcomes.len(),
    decreases outcomes.len(),
{
    if outcomes.len() > 0 {
        outcomes_add_up(outcomes.drop_last());
    }
}

/// Counts the outcomes of a pass.
pub fn report_pass(outcomes: &Vec<TranscodeOutcome>) -> (report: PassReport)
    ensures
        report.transcoded == outcomes_of(outcomes@, TranscodeOutcome::Transcoded),
        report.failed == outcomes_of(outcomes@, TranscodeOutcome::Failed),
        report.skipped == outcomes_of(outcomes@, TranscodeOutcome::SkippedNotAudio),
{
    let mut report = PassReport { transcoded: 0, failed: 0, skipped: 0 };
    let mut next: usize = 0;
    proof {
        assert(outcomes@.take(0) =~= Seq::<TranscodeOutcome>::empty());
    }
    while next < outcomes.len()
        invariant
            next <= outcomes@.len(),
            report.transcoded == outcomes_of(
                outcomes@.take(next as int),
                TranscodeOutcome::Transcoded,
            ),
            report.failed == outcomes_of(outcomes@.take(next as int), TranscodeOutcome::Failed),
            report.skipped == outcomes_of(
                outcomes@.take(next as int),
                TranscodeOutcome::SkippedNotAudio,
            ),
        decreases outcomes@.len() - next,
    {
        proof {
            let seen = outcomes@.take(next + 1);
            assert(seen.drop_last() =~= outcomes@.take(next as int));
            assert(seen.last() == outcomes@[next as int]);
            outcomes_are_bounded(seen, TranscodeOutcome::Transcoded);
            outcomes_are_bounded(seen, TranscodeOutcome::Failed);
            outcomes_are_bounded(seen, TranscodeOutcome::SkippedNotAudio);
        }
        match outcomes[next] {
            TranscodeOutcome::Transcoded => {
                report.transcoded = report.transcoded + 1;
            },
            TranscodeOutcome::Failed => {
                report.failed = report.failed + 1;
            },
            TranscodeOutcome::SkippedNotAudio => {
                report.skipped = report.skipped + 1;
            },
        }
        next = next + 1;
    }
    proof {
        assert(outcomes@.take(next as int) =~= outcomes@);
    }
    report
}

/// The tree after a settlement has been carried out.
pub open spec fn settled(tree: Tree, job: JobView, settlement: Settlement) -> Tree {
    match settlement {
        Settlement::Replace => renamed(tree, job.sibling(), job.source()),
        Settlement::Discard { remove_sibling } => if remove_sibling {
            removed(tree, job.sibling())
        } else {
            tree
        },
    }
}

/// Whether `end` can be the tree after `job` has run on `before` with
/// `result`: the transcoder wrote nothing but, possibly, the sibling, and the
/// settlement was then carried out.
pub open spec fn job_ran(before: Tree, end: Tree, job: JobView, result: TranscodeResult) -> bool {
    exists|after: Tree| #[trigger]
        agree_except(before, after, job.sibling()) && end == settled(
            after,
            job,
            settlement_for(result, after.dom().contains(job.sibling())),
        )
}

/// Whether `trees` can be the trees seen while `jobs` ran one after another:
/// `trees[k]` before the job at `k`, `trees[k + 1]` after it.
pub open spec fn pass_ran(trees: Seq<Tree>, jobs: Seq<JobView>, results: Seq<TranscodeResult>) -> bool {
    &&& trees.len() == jobs.len() + 1
    &&& results.len() == jobs.len()
    &&& forall|k: int|
        #![trigger jobs[k]]
        0 <= k < jobs.len() ==> job_ran(trees[k], trees[k + 1], jobs[k], results[k])
}

/// The sibling of a file never has the file's own name.
pub proof fn sibling_differs_from_source(file_name: Seq<char>)
    ensures
        sibling_of(file_name) != file_name,
{
    reveal_strlit("temp_");
    assert(sibling_of(file_name).len() == file_name.len() + 5);
}

/// Files with different names in one directory get different siblings, so
/// two workers never write the same in-flight output.
pub proof fn siblings_are_distinct(first: Seq<char>, second: Seq<char>)
    requires
        first != second,
    ensures
        sibling_of(first) != sibling_of(second),
{
    if sibling_of(first) == sibling_of(second) {
        let shift = marker().len() as int;
        assert(sibling_of(first).subrange(shift, shift + first.len()) =~= first);
        assert(sibling_of(second).subrange(shift, shift + second.len()) =~= second);
        assert(first.len() == second.len());
    }
}

/// A pass plans a job for every eligible candidate and for nothing else: only
/// regular files that open with the audio signature reach the transcoder.
pub proof fn planned_is_exactly_the_audio(candidates: Seq<Candidate>, job: JobView)
    ensures
        planned(candidates).contains(job) <==> exists|at: int|
            0 <= at < candidates.len() && eligible(#[trigger] candidates[at]) && job_for(
                candidates[at],
            ) == job,
    decreases candidates.len(),
{
    if candidates.len() > 0 {
        let rest = candidates.drop_last();
        let last = candidates.len() - 1;
        planned_is_exactly_the_audio(rest, job);
        if planned(candidates).contains(job) {
            let k = choose|k: int| 0 <= k < planned(candidates).len() && planned(candidates)[k] == job;
            if eligible(candidates.last()) && k == planned(rest).len() {
                assert(eligible(candidates[last]) && job_for(candidates[last]) == job);
            } else {
                assert(planned(rest)[k] == job);
                assert(planned(rest).contains(job));
                let at = choose|at: int|
                    0 <= at < rest.len() && eligible(#[trigger] rest[at]) && job_for(rest[at]) == job;
                assert(eligible(candidates[at]) && job_for(candidates[at]) == job);
            }
        }
        if exists|at: int|
            0 <= at < candidates.len() && eligible(#[trigger] candidates[at]) && job_for(
                candidates[at],
            ) == job {
            let at = choose|at: int|
                0 <= at < candidates.len() && eligible(#[trigger] candidates[at]) && job_for(
                    candidates[at],
                ) == job;
            if at < last {
                assert(eligible(rest[at]) && job_for(rest[at]) == job);
                let k = choose|k: int| 0 <= k < planned(rest).len() && planned(rest)[k] == job;
                assert(planned(candidates)[k] == job);
            } else {
                assert(planned(candidates)[planned(rest).len() as int] == job);
            }
        }
    }
}

/// A job changes nothing but its own source and sibling.
pub proof fn job_touches_only_its_files(
    before: Tree,
    end: Tree,
    job: JobView,
    result: TranscodeResult,
    path: (Seq<char>, Seq<char>),
)
    requires
        job_ran(before, end, job, result),
        path != job.source(),
        path != job.sibling(),
    ensures
        agrees_at(before, end, path),
{
    let after = choose|after: Tree| #[trigger]
        agree_except(before, after, job.sibling()) && end == settled(
            after,
            job,
            settlement_for(result, after.dom().contains(job.sibling())),
        );
    assert(agrees_at(before, after, path));
}

/// When the transcoder fails, the source is as it was before the job (the
/// same bytes, or missing as before) and no sibling is left behind.
pub proof fn failed_transcode_restores(before: Tree, end: Tree, job: JobView)
    requires
        job.well_formed(),
        job_ran(before, end, job, TranscodeResult::Failed),
    ensures
        agrees_at(before, end, job.source()),
        !end.dom().contains(job.sibling()),
{
    sibling_differs_from_source(job.source_name);
    let after = choose|after: Tree| #[trigger]
        agree_except(before, after, job.sibling()) && end == settled(
            after,
            job,
            settlement_for(TranscodeResult::Failed, after.dom().contains(job.sibling())),
        );
    assert(agrees_at(before, after, job.source()));
}

/// When the transcoder succeeds and has written the sibling, the source ends
/// up with exactly the bytes the transcoder wrote and the sibling is gone.
pub proof fn successful_transcode_replaces(before: Tree, after: Tree, job: JobView)
    requires
        job.well_formed(),
        agree_except(before, after, job.sibling()),
        after.dom().contains(job.sibling()),
    ensures
        ({
            let end = settled(after, job, settlement_for(TranscodeResult::Succeeded, true));
            &&& job_ran(before, end, job, TranscodeResult::Succeeded)
            &&& end.dom().contains(job.source())
            &&& end[job.source()] == after[job.sibling()]
            &&& !end.dom().contains(job.sibling())
        }),
{
    sibling_differs_from_source(job.source_name);
}

/// A whole pass changes nothing but the sources and siblings of its jobs.
pub proof fn pass_touches_only_job_files(
    trees: Seq<Tree>,
    jobs: Seq<JobView>,
    results: Seq<TranscodeResult>,
    path: (Seq<char>, Seq<char>),
    upto: int,
)
    requires
        pass_ran(trees, jobs, results),
        0 <= upto <= jobs.len(),
        forall|k: int|
            #![trigger jobs[k]]
            0 <= k < jobs.len() ==> path != jobs[k].source() && path != jobs[k].sibling(),
    ensures
        agrees_at(trees[0], trees[upto], path),
    decreases upto,
{
    if upto > 0 {
        pass_touches_only_job_files(trees, jobs, results, path, upto - 1);
        let k = upto - 1;
        assert(path != jobs[k].source() && path != jobs[k].sibling());
        job_touches_only_its_files(trees[k], trees[k + 1], jobs[k], results[k], path);
    }
}

/// Over a pass whose jobs were planned from `candidates`, a file that is
/// neither an eligible candidate nor named like the sibling of one is
/// byte-identical before and after: only audio is touched.
pub proof fn only_audio_is_touched(
    candidates: Seq<Candidate>,
    trees: Seq<Tree>,
    jobs: Seq<JobView>,
    results: Seq<TranscodeResult>,
    path: (Seq<char>, Seq<char>),
)
    requires
        pass_ran(trees, jobs, results),
        forall|k: int| 0 <= k < jobs.len() ==> planned(candidates).contains(#[trigger] jobs[k]),
        forall|at: int|
            0 <= at < candidates.len() && eligible(#[trigger] candidates[at]) ==> path != job_for(
                candidates[at],
            ).source() && path != job_for(candidates[at]).sibling(),
    ensures
        agrees_at(trees.first(), trees.last(), path),
{
    assert forall|k: int|
        #![trigger jobs[k]]
        0 <= k < jobs.len() implies path != jobs[k].source() && path != jobs[k].sibling() by {
        planned_is_exactly_the_audio(candidates, jobs[k]);
        let at = choose|at: int|
            0 <= at < candidates.len() && eligible(#[trigger] candidates[at]) && job_for(
                candidates[at],
            ) == jobs[k];
        assert(eligible(candidates[at]));
    }
    pass_touches_only_job_files(trees, jobs, results, path, jobs.len() as int);
}

/// Over the first `upto` jobs of a pass, the source of a job that failed is
/// as it was, provided no other job reads or writes that file.
pub proof fn failed_source_survives_upto(
    trees: Seq<Tree>,
    jobs: Seq<JobView>,
    results: Seq<TranscodeResult>,
    failed: int,
    upto: int,
)
    requires
        pass_ran(trees, jobs, results),
        0 <= failed < jobs.len(),
        0 <= upto <= jobs.len(),
        results[failed] == TranscodeResult::Failed,
        jobs[failed].well_formed(),
        forall|k: int|
            #![trigger jobs[k]]
            0 <= k < jobs.len() && k != failed ==> jobs[k].source() != jobs[failed].source()
                && jobs[k].sibling() != jobs[failed].source(),
    ensures
        agrees_at(trees[0], trees[upto], jobs[failed].source()),
    decreases upto,
{
    if upto > 0 {
        failed_source_survives_upto(trees, jobs, results, failed, upto - 1);
        let k = upto - 1;
        assert(job_ran(trees[k], trees[k + 1], jobs[k], results[k]));
        if k == failed {
            failed_transcode_restores(trees[k], trees[k + 1], jobs[k]);
        } else {
            job_touches_only_its_files(
                trees[k],
                trees[k + 1],
                jobs[k],
                results[k],
                jobs[failed].source(),
            );
        }
    }
}

/// After a whole pass, a file whose transcoder failed is byte-identical to
/// what it was before the pass, provided no other job of the pass reads it
/// or writes it as its sibling. (A file named like the sibling of another
/// audio file of its directory is not protected: that job overwrites it.)
pub proof fn failed_sources_survive_the_pass(
    trees: Seq<Tree>,
    jobs: Seq<JobView>,
    results: Seq<TranscodeResult>,
    failed: int,
)
    requires
        pass_ran(trees, jobs, results),
        0 <= failed < jobs.len(),
        results[failed] == TranscodeResult::Failed,
        jobs[failed].well_formed(),
        forall|k: int|
            #![trigger jobs[k]]
            0 <= k < jobs.len() && k != failed ==> jobs[k].source() != jobs[failed].source()
                && jobs[k].sibling() != jobs[failed].source(),
    ensures
        agrees_at(trees.first(), trees.last(), jobs[failed].source()),
{
    failed_source_survives_upto(trees, jobs, results, failed, jobs.len() as int);
}

} // verus!
