//! The single-stage gene-tree runner: one job per NEXUS alignment, with the
//! program picking its own thread count, and results kept under `treefiles`.
use crate::collect::Collector;
use crate::command::push_arg;
use crate::layout::{GENE_TREE_OUTPUT_DIR, TREE_EXT};
use crate::paths::{join, joined};
use crate::text::{push_char, views};
use vstd::prelude::*;

verus! {

/// The directory that receives the tree files of this runner.
pub const TREE_DIR: &'static str = "treefiles";

/// One job of the runner.
pub struct Iqtree {
    pub version: i8,
    pub path: String,
    pub prefix: String,
    pub command: String,
    pub treedir: String,
}

/// The program's name for a major version: version 2 installs as `iqtree2`.
pub open spec fn command_for(version: i8) -> Seq<char> {
    if version == 2 {
        "iqtree"@.push('2')
    } else {
        "iqtree"@
    }
}

impl Iqtree {
    pub fn new(version: i8, path: &str, prefix: &str, treedir: &str) -> (r: Iqtree)
        ensures
            r.version == version,
            r.path@ == path@,
            r.prefix@ == prefix@,
            r.treedir@ == treedir@,
            r.command@ == "iqtree"@,
    {
        Iqtree {
            version,
            path: String::from_str(path),
            prefix: String::from_str(prefix),
            command: String::from_str("iqtree"),
            treedir: String::from_str(treedir),
        }
    }

    /// Names the program after its major version.
    pub fn get_iqtree_version(&mut self)
        requires
            old(self).command@ == "iqtree"@,
        ensures
            final(self).command@ == command_for(old(self).version),
            final(self).version == old(self).version,
            final(self).path@ == old(self).path@,
            final(self).prefix@ == old(self).prefix@,
            final(self).treedir@ == old(self).treedir@,
    {
        if self.version == 2 {
            push_char(&mut self.command, '2');
        }
    }

    /// The job's arguments: the alignment, automatic threads, the prefix.
    pub fn call_args(&self) -> (r: Vec<String>)
        ensures
            views(r@) == seq!["-s"@, self.path@, "-T"@, "AUTO"@, "--prefix"@, self.prefix@],
    {
        let mut args: Vec<String> = Vec::new();
        push_arg(&mut args, "-s");
        push_arg(&mut args, self.path.as_str());
        push_arg(&mut args, "-T");
        push_arg(&mut args, "AUTO");
        push_arg(&mut args, "--prefix");
        push_arg(&mut args, self.prefix.as_str());
        assert(views(args@) =~= seq!["-s"@, self.path@, "-T"@, "AUTO"@, "--prefix"@, self.prefix@]);
        args
    }

    /// Where the job's files go: the tree file into the tree directory, the
    /// rest into a directory named after the prefix.
    pub fn collector(&self) -> (r: Collector)
        ensures
            r.primary_ext@ == TREE_EXT@,
            r.primary_dir matches Some(d) && d@ == self.treedir@,
            r.archive_dir@ == join(GENE_TREE_OUTPUT_DIR@, self.prefix@),
    {
        Collector {
            primary_ext: String::from_str(TREE_EXT),
            primary_dir: Some(String::from_str(self.treedir.as_str())),
            archive_dir: joined(GENE_TREE_OUTPUT_DIR, self.prefix.as_str()),
        }
    }
}

/// The pattern that finds the NEXUS alignments in `dir`.
pub fn nexus_pattern(dir: &str) -> (r: String)
    ensures
        r@ == join(dir@, "*.nexus"@),
{
    joined(dir, "*.nexus")
}

/// The failure report of a job of this runner, for a program that did not
/// succeed: what goes to standard output, then what goes to standard error.
pub open spec fn runner_failure(path: Seq<char>, stdout: Seq<char>, stderr: Seq<char>) -> (
    Seq<char>,
    Seq<char>,
) {
    (
        seq!['\n'] + "\x1b[0;41mIQ-TREE FAILED TO PROCESS "@ + path + "\x1b[0m"@ + stdout + stderr,
        "\x1b[0;41mERROR:\x1b[0m IQ-TREE failed to process "@ + path
            + ". See the log output above.\n"@,
    )
}

impl Iqtree {
    /// The report of the job: `None` where its program succeeded.
    pub fn check_iqtree_success(&self, succeeded: bool, stdout: &str, stderr: &str) -> (r: Option<
        (String, String),
    >)
        ensures
            succeeded <==> r is None,
            r matches Some((o, e)) ==> (o@, e@) == runner_failure(self.path@, stdout@, stderr@),
    {
        if succeeded {
            return None;
        }
        let mut out = String::new();
        push_char(&mut out, '\n');
        out.append("\x1b[0;41mIQ-TREE FAILED TO PROCESS ");
        out.append(self.path.as_str());
        out.append("\x1b[0m");
        out.append(stdout);
        out.append(stderr);
        let mut err = String::from_str("\x1b[0;41mERROR:\x1b[0m IQ-TREE failed to process ");
        err.append(self.path.as_str());
        err.append(". See the log output above.\n");
        Some((out, err))
    }
}

} // verus!
