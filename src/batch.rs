//! The gene-tree batch stage as a state machine. Discovery turns the found
//! alignments into one job each, or rejects the batch; each job's outcome is
//! recorded as its worker finishes; once every job is in, the stage combines
//! the tree files, in discovery order, into one collection of trees.
use crate::command::{inference_args, inference_job_args, opt_view};
use crate::layout::{Layout, TREE_EXT};
use crate::paths::{file_name, join, joined, stem, stem_of};
use crate::text::{trim, trimmed, views};
use vstd::prelude::*;

verus! {

/// Why a batch cannot go on.
#[derive(Debug, PartialEq, Eq)]
pub enum BatchError {
    /// Fewer than two alignments were found; holds how many.
    TooFewAlignments(usize),
    /// Two alignments share a job prefix; holds the prefix.
    DuplicatePrefix(String),
    /// No job of this index waits for an outcome.
    UnknownJob(usize),
    /// Some job has not reported yet.
    JobsPending,
    /// The step does not belong to the batch's current phase.
    WrongPhase,
}

/// The phases after discovery.
#[derive(Clone, Copy, Debug, PartialEq, Eq, Structural)]
pub enum Phase {
    Dispatching,
    Aggregating,
    Done,
}

/// One inference job of the batch.
pub struct GeneJob {
    /// The alignment it reads.
    pub alignment: String,
    /// The prefix of every file it writes: the alignment's file stem.
    pub prefix: String,
    /// Its arguments.
    pub args: Vec<String>,
}

/// The job prefix of an alignment path: the stem of its file name.
pub open spec fn job_prefix(path: Seq<char>) -> Seq<char> {
    stem(file_name(path))
}

/// Whether some two of `paths` share a job prefix.
pub open spec fn has_duplicate_prefix(paths: Seq<Seq<char>>) -> bool {
    exists|a: int, b: int|
        0 <= a < b < paths.len() && #[trigger] job_prefix(paths[a]) == #[trigger] job_prefix(
            paths[b],
        )
}

/// `job` is the job that discovery makes of `path`.
pub open spec fn job_for(job: GeneJob, path: Seq<char>, params: Option<Seq<char>>) -> bool {
    &&& job.alignment@ == path
    &&& job.prefix@ == job_prefix(path)
    &&& views(job.args@) == inference_args(path, job_prefix(path), params)
}

/// The trimmed trees that are present, each ended by a newline, in order.
pub open spec fn tree_lines(trees: Seq<Option<Seq<char>>>) -> Seq<char>
    decreases trees.len(),
{
    if trees.len() == 0 {
        Seq::empty()
    } else {
        let rest = tree_lines(trees.drop_last());
        match trees.last() {
            Some(t) => rest + trim(t).push('\n'),
            None => rest,
        }
    }
}

/// How many of `trees` are present.
pub open spec fn present(trees: Seq<Option<Seq<char>>>) -> nat
    decreases trees.len(),
{
    if trees.len() == 0 {
        0
    } else {
        present(trees.drop_last()) + if trees.last() is Some {
            1nat
        } else {
            0nat
        }
    }
}

/// How many times `c` occurs in `s`.
pub open spec fn count(s: Seq<char>, c: char) -> nat
    decreases s.len(),
{
    if s.len() == 0 {
        0
    } else {
        count(s.drop_last(), c) + if s.last() == c {
            1nat
        } else {
            0nat
        }
    }
}

/// The views of a list of optional strings.
pub open spec fn opt_seq_views(v: Seq<Option<String>>) -> Seq<Option<Seq<char>>> {
    v.map_values(|o: Option<String>| opt_view(o))
}

/// The batch after discovery.
pub struct GeneBatch {
    pub jobs: Vec<GeneJob>,
    /// Whether each job's program exited successfully, once known.
    pub outcomes: Vec<Option<bool>>,
    pub phase: Phase,
}

impl GeneBatch {
    pub open spec fn wf(&self) -> bool {
        &&& self.jobs@.len() >= 2
        &&& self.outcomes@.len() == self.jobs@.len()
        &&& self.phase != Phase::Dispatching ==> forall|i: int|
            0 <= i < self.outcomes@.len() ==> #[trigger] self.outcomes@[i] is Some
    }

    /// Every job has reported.
    pub open spec fn all_reported(&self) -> bool {
        forall|i: int| 0 <= i < self.outcomes@.len() ==> #[trigger] self.outcomes@[i] is Some
    }

    /// Makes one job of each alignment found, in the order found. A batch of
    /// fewer than two alignments is refused before any job exists, and so is
    /// one in which two alignments share a prefix, since their jobs would
    /// write to the same files.
    pub fn discover(paths: &Vec<String>, params: &Option<String>) -> (r: Result<
        GeneBatch,
        BatchError,
    >)
        ensures
            paths@.len() < 2 <==> r == Err::<GeneBatch, BatchError>(
                BatchError::TooFewAlignments(paths@.len() as usize),
            ),
            paths@.len() >= 2 ==> (r is Err <==> has_duplicate_prefix(views(paths@))),
            r matches Err(BatchError::DuplicatePrefix(p)) ==> exists|a: int|
                0 <= a < paths@.len() && p@ == job_prefix(paths@[a]@),
            r matches Ok(b) ==> {
                &&& b.wf()
                &&& b.phase == Phase::Dispatching
                &&& b.jobs@.len() == paths@.len()
                &&& forall|i: int|
                    0 <= i < paths@.len() ==> job_for(
                        #[trigger] b.jobs@[i],
                        paths@[i]@,
                        opt_view(*params),
                    )
                &&& forall|i: int| 0 <= i < b.outcomes@.len() ==> #[trigger] b.outcomes@[i] is None
            },
    {
        let n = paths.len();
        if n < 2 {
            return Err(BatchError::TooFewAlignments(n));
        }
        let mut jobs: Vec<GeneJob> = Vec::new();
        let mut outcomes: Vec<Option<bool>> = Vec::new();
        let mut i: usize = 0;
        while i < n
            invariant
                n == paths@.len(),
                i <= n,
                jobs@.len() == i,
                outcomes@.len() == i,
                forall|k: int|
                    0 <= k < i ==> job_for(#[trigger] jobs@[k], paths@[k]@, opt_view(*params)),
                forall|k: int| 0 <= k < i ==> #[trigger] outcomes@[k] is None,
                forall|a: int, b: int|
                    0 <= a < b < i ==> #[trigger] job_prefix(paths@[a]@) != #[trigger] job_prefix(
                        paths@[b]@,
                    ),
            decreases n - i,
        {
            let path = paths[i].as_str();
            let prefix = stem_of(path);
            let mut k: usize = 0;
            while k < i
                invariant
                    i < n == paths@.len(),
                    k <= i,
                    jobs@.len() == i,
                    prefix@ == job_prefix(paths@[i as int]@),
                    forall|m: int|
                        0 <= m < i ==> job_for(#[trigger] jobs@[m], paths@[m]@, opt_view(*params)),
                    forall|a: int| 0 <= a < k ==> job_prefix(paths@[a]@) != prefix@,
                decreases i - k,
            {
                if jobs[k].prefix == prefix {
                    proof {
                        assert(views(paths@)[k as int] == paths@[k as int]@);
                        assert(views(paths@)[i as int] == paths@[i as int]@);
                        assert(job_prefix(views(paths@)[k as int]) == job_prefix(
                            views(paths@)[i as int],
                        ));
                    }
                    return Err(BatchError::DuplicatePrefix(prefix));
                }
                k = k + 1;
            }
            let args = inference_job_args(path, prefix.as_str(), params);
            jobs.push(GeneJob { alignment: String::from_str(path), prefix, args });
            outcomes.push(None);
            i = i + 1;
        }
        proof {
            if has_duplicate_prefix(views(paths@)) {
                let (a, b) = choose|a: int, b: int|
                    0 <= a < b < views(paths@).len() && #[trigger] job_prefix(views(paths@)[a])
                        == #[trigger] job_prefix(views(paths@)[b]);
                assert(views(paths@)[a] == paths@[a]@);
                assert(views(paths@)[b] == paths@[b]@);
                assert(job_prefix(paths@[a]@) != job_prefix(paths@[b]@));
            }
        }
        Ok(GeneBatch { jobs, outcomes, phase: Phase::Dispatching })
    }

    /// Records whether job `index` succeeded. A failed job is recorded like any
    /// other: it holds back no other job.
    pub fn record_outcome(&mut self, index: usize, succeeded: bool) -> (r: Result<(), BatchError>)
        requires
            old(self).wf(),
        ensures
            final(self).wf(),
            r is Ok <==> (old(self).phase == Phase::Dispatching && index < old(self).jobs@.len()
                && old(self).outcomes@[index as int] is None),
            r is Ok ==> final(self).outcomes@ == old(self).outcomes@.update(
                index as int,
                Some(succeeded),
            ),
            r is Err ==> r == Err::<(), BatchError>(BatchError::UnknownJob(index))
                && final(self).outcomes@ == old(self).outcomes@,
            final(self).jobs@ == old(self).jobs@,
            final(self).phase == old(self).phase,
    {
        if self.phase != Phase::Dispatching || index >= self.outcomes.len() {
            return Err(BatchError::UnknownJob(index));
        }
        match self.outcomes[index] {
            Some(_) => Err(BatchError::UnknownJob(index)),
            None => {
                self.outcomes.set(index, Some(succeeded));
                Ok(())
            },
        }
    }

    /// Closes dispatch once every job has reported: the completion barrier.
    pub fn finish_dispatch(&mut self) -> (r: Result<(), BatchError>)
        requires
            old(self).wf(),
        ensures
            final(self).wf(),
            final(self).jobs@ == old(self).jobs@,
            final(self).outcomes@ == old(self).outcomes@,
            r is Ok <==> (old(self).phase == Phase::Dispatching && old(self).all_reported()),
            r is Ok ==> final(self).phase == Phase::Aggregating,
            r is Err ==> final(self).phase == old(self).phase,
            r is Err && old(self).phase != Phase::Dispatching ==> r == Err::<(), BatchError>(
                BatchError::WrongPhase,
            ),
            r is Err && old(self).phase == Phase::Dispatching ==> r == Err::<(), BatchError>(
                BatchError::JobsPending,
            ),
    {
        if self.phase != Phase::Dispatching {
            return Err(BatchError::WrongPhase);
        }
        let mut i: usize = 0;
        while i < self.outcomes.len()
            invariant
                *self == *old(self),
                self.wf(),
                self.phase == Phase::Dispatching,
                i <= self.outcomes@.len(),
                forall|k: int| 0 <= k < i ==> #[trigger] self.outcomes@[k] is Some,
            decreases self.outcomes@.len() - i,
        {
            if self.outcomes[i].is_none() {
                return Err(BatchError::JobsPending);
            }
            i = i + 1;
        }
        self.phase = Phase::Aggregating;
        Ok(())
    }

    /// Where `job` leaves its tree once collected.
    pub open spec fn tree_path(layout: Layout, job: GeneJob) -> Seq<char> {
        join(layout.gene_tree_dir@, job.prefix@ + seq!['.'] + TREE_EXT@)
    }

    /// The tree file of job `index`.
    pub fn tree_path_of(&self, layout: &Layout, index: usize) -> (r: String)
        requires
            index < self.jobs@.len(),
        ensures
            r@ == Self::tree_path(*layout, self.jobs@[index as int]),
    {
        let mut name = String::from_str(self.jobs[index].prefix.as_str());
        name.append(".");
        name.append(TREE_EXT);
        proof {
            reveal_strlit(".");
        }
        joined(layout.gene_tree_dir.as_str(), name.as_str())
    }

    /// Combines the jobs' trees, given in job order with `None` where a job
    /// left no tree: each present tree, trimmed, on a line of its own.
    pub fn aggregate(&mut self, trees: &Vec<Option<String>>) -> (r: Result<String, BatchError>)
        requires
            old(self).wf(),
        ensures
            final(self).wf(),
            final(self).jobs@ == old(self).jobs@,
            final(self).outcomes@ == old(self).outcomes@,
            r is Ok <==> (old(self).phase == Phase::Aggregating && trees@.len()
                == old(self).jobs@.len()),
            r matches Ok(s) ==> s@ == tree_lines(opt_seq_views(trees@)) && final(self).phase
                == Phase::Done,
            r is Err ==> r == Err::<String, BatchError>(BatchError::WrongPhase),
            r is Err ==> final(self).phase == old(self).phase,
    {
        if self.phase != Phase::Aggregating || trees.len() != self.jobs.len() {
            return Err(BatchError::WrongPhase);
        }
        let s = combine_trees(trees);
        self.phase = Phase::Done;
        Ok(s)
    }
}

/// Each present tree, trimmed, on a line of its own, in the order given.
pub fn combine_trees(trees: &Vec<Option<String>>) -> (r: String)
    ensures
        r@ == tree_lines(opt_seq_views(trees@)),
{
    let mut out = String::new();
    let mut i: usize = 0;
    while i < trees.len()
        invariant
            i <= trees@.len(),
            out@ == tree_lines(opt_seq_views(trees@).subrange(0, i as int)),
        decreases trees@.len() - i,
    {
        let ghost before = opt_seq_views(trees@).subrange(0, i as int);
        assert(opt_seq_views(trees@).subrange(0, i + 1).drop_last() =~= before);
        match &trees[i] {
            Some(t) => {
                let line = trimmed(t.as_str());
                out.append(line.as_str());
                crate::text::push_char(&mut out, '\n');
                assert(out@ =~= tree_lines(before) + trim(t@).push('\n'));
            },
            None => {},
        }
        i = i + 1;
    }
    assert(opt_seq_views(trees@).subrange(0, i as int) =~= opt_seq_views(trees@));
    out
}

pub proof fn lemma_count_append(a: Seq<char>, b: Seq<char>, c: char)
    ensures
        count(a + b, c) == count(a, c) + count(b, c),
    decreases b.len(),
{
    if b.len() > 0 {
        assert((a + b).drop_last() =~= a + b.drop_last());
        lemma_count_append(a, b.drop_last(), c);
    } else {
        assert(a + b =~= a);
    }
}

pub proof fn lemma_count_absent(s: Seq<char>, c: char)
    requires
        !s.contains(c),
    ensures
        count(s, c) == 0,
    decreases s.len(),
{
    if s.len() > 0 {
        assert(s.contains(s.last()));
        assert forall|d: char| s.drop_last().contains(d) implies s.contains(d) by {
            let k = choose|k: int| 0 <= k < s.drop_last().len() && s.drop_last()[k] == d;
            assert(s[k] == d);
        }
        lemma_count_absent(s.drop_last(), c);
    }
}

/// The tree collection has exactly one line for each tree present, provided
/// no trimmed tree holds a line break of its own.
pub proof fn lemma_one_line_per_tree(trees: Seq<Option<Seq<char>>>)
    requires
        forall|i: int|
            0 <= i < trees.len() ==> (#[trigger] trees[i] matches Some(t) ==> !trim(t).contains(
                '\n',
            )),
    ensures
        count(tree_lines(trees), '\n') == present(trees),
    decreases trees.len(),
{
    if trees.len() > 0 {
        let init = trees.drop_last();
        assert forall|i: int|
            0 <= i < init.len() implies (#[trigger] init[i] matches Some(t) ==> !trim(t).contains(
            '\n',
        )) by {
            assert(init[i] == trees[i]);
        }
        lemma_one_line_per_tree(init);
        if let Some(t) = trees.last() {
            assert(trees[trees.len() - 1] == trees.last());
            lemma_count_absent(trim(t), '\n');
            lemma_count_append(tree_lines(init), trim(t).push('\n'), '\n');
            assert(trim(t).push('\n').drop_last() =~= trim(t));
        }
    }
}

pub proof fn lemma_present_bound(trees: Seq<Option<Seq<char>>>)
    ensures
        present(trees) <= trees.len(),
        present(trees) == trees.len() <==> forall|i: int|
            0 <= i < trees.len() ==> #[trigger] trees[i] is Some,
    decreases trees.len(),
{
    if trees.len() > 0 {
        let init = trees.drop_last();
        lemma_present_bound(init);
        if present(trees) == trees.len() {
            assert forall|i: int| 0 <= i < trees.len() implies #[trigger] trees[i] is Some by {
                if i < trees.len() - 1 {
                    assert(init[i] == trees[i]);
                }
            }
        }
        if forall|i: int| 0 <= i < trees.len() ==> #[trigger] trees[i] is Some {
            assert forall|i: int| 0 <= i < init.len() implies #[trigger] init[i] is Some by {
                assert(init[i] == trees[i]);
            }
            assert(trees[trees.len() - 1] is Some);
        }
    }
}

/// When exactly one job of a finished batch failed, and a job leaves a tree
/// exactly when it succeeds, the collection holds one line for each of the
/// other jobs.
pub proof fn lemma_single_fault(
    trees: Seq<Option<Seq<char>>>,
    outcomes: Seq<Option<bool>>,
    faulted: int,
)
    requires
        trees.len() == outcomes.len(),
        0 <= faulted < outcomes.len(),
        outcomes[faulted] == Some(false),
        forall|i: int| 0 <= i < outcomes.len() && i != faulted ==> #[trigger] outcomes[i] == Some(
            true,
        ),
        forall|i: int| 0 <= i < trees.len() ==> (#[trigger] trees[i] is Some <==> outcomes[i] == Some(
            true,
        )),
        forall|i: int|
            0 <= i < trees.len() ==> (#[trigger] trees[i] matches Some(t) ==> !trim(t).contains(
                '\n',
            )),
    ensures
        count(tree_lines(trees), '\n') == trees.len() - 1,
{
    lemma_one_line_per_tree(trees);
    let others = trees.update(faulted, Some(Seq::empty()));
    lemma_present_update(trees, faulted);
    lemma_present_bound(others);
    assert forall|i: int| 0 <= i < others.len() implies #[trigger] others[i] is Some by {
        if i != faulted {
            assert(trees[i] is Some);
        }
    }
}

/// Filling a missing entry adds one to the count of present ones.
pub proof fn lemma_present_update(trees: Seq<Option<Seq<char>>>, at: int)
    requires
        0 <= at < trees.len(),
        trees[at] is None,
    ensures
        present(trees.update(at, Some(Seq::empty()))) == present(trees) + 1,
    decreases trees.len(),
{
    let filled = trees.update(at, Some(Seq::empty()));
    if at == trees.len() - 1 {
        assert(filled.drop_last() =~= trees.drop_last());
    } else {
        assert(filled.drop_last() =~= trees.drop_last().update(at, Some(Seq::empty())));
        assert(trees.drop_last()[at] == trees[at]);
        lemma_present_update(trees.drop_last(), at);
    }
}

/// How many of `outcomes` are successes.
pub open spec fn successes(outcomes: Seq<Option<bool>>) -> nat
    decreases outcomes.len(),
{
    if outcomes.len() == 0 {
        0
    } else {
        successes(outcomes.drop_last()) + if outcomes.last() == Some(true) {
            1nat
        } else {
            0nat
        }
    }
}

/// Where a job leaves a tree exactly when its program succeeds, the tree
/// collection has exactly one line for each successful job.
pub proof fn lemma_lines_match_successes(
    trees: Seq<Option<Seq<char>>>,
    outcomes: Seq<Option<bool>>,
)
    requires
        trees.len() == outcomes.len(),
        forall|i: int| 0 <= i < trees.len() ==> (#[trigger] trees[i] is Some <==> outcomes[i] == Some(
            true,
        )),
        forall|i: int|
            0 <= i < trees.len() ==> (#[trigger] trees[i] matches Some(t) ==> !trim(t).contains(
                '\n',
            )),
    ensures
        count(tree_lines(trees), '\n') == successes(outcomes),
{
    lemma_one_line_per_tree(trees);
    lemma_present_successes(trees, outcomes);
}

proof fn lemma_present_successes(trees: Seq<Option<Seq<char>>>, outcomes: Seq<Option<bool>>)
    requires
        trees.len() == outcomes.len(),
        forall|i: int| 0 <= i < trees.len() ==> (#[trigger] trees[i] is Some <==> outcomes[i] == Some(
            true,
        )),
    ensures
        present(trees) == successes(outcomes),
    decreases trees.len(),
{
    if trees.len() > 0 {
        let t = trees.drop_last();
        let o = outcomes.drop_last();
        assert forall|i: int| 0 <= i < t.len() implies (#[trigger] t[i] is Some <==> o[i] == Some(
            true,
        )) by {
            assert(t[i] == trees[i]);
            assert(o[i] == outcomes[i]);
        }
        lemma_present_successes(t, o);
        assert(trees[trees.len() - 1] == trees.last());
    }
}

} // verus!
