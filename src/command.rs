//! The argument lists handed to the tree-inference and coalescence programs.
use crate::layout::Layout;
use crate::text::{decimal, decimal_text, split_words, views, words};
use vstd::prelude::*;

verus! {

/// The view of an optional string.
pub open spec fn opt_view(o: Option<String>) -> Option<Seq<char>> {
    match o {
        Some(s) => Some(s@),
        None => None,
    }
}

/// The arguments of one inference job on `alignment`, writing under `prefix`.
/// Without override parameters the job runs on one thread with 1000 bootstrap
/// replicates; override parameters replace both, split on whitespace.
pub open spec fn inference_args(
    alignment: Seq<char>,
    prefix: Seq<char>,
    params: Option<Seq<char>>,
) -> Seq<Seq<char>> {
    match params {
        None => seq!["-s"@, alignment, "-T"@, "1"@, "--prefix"@, prefix, "-B"@, "1000"@],
        Some(p) => seq!["-s"@, alignment, "--prefix"@, prefix] + words(p),
    }
}

/// The arguments of the concordance factor job.
pub open spec fn concordance_args(
    species_tree: Seq<char>,
    gene_trees: Seq<char>,
    alignments: Seq<char>,
    cores: nat,
    prefix: Seq<char>,
) -> Seq<Seq<char>> {
    seq![
        "-t"@,
        species_tree,
        "--gcf"@,
        gene_trees,
        "-p"@,
        alignments,
        "--scf"@,
        "100"@,
        "-T"@,
        decimal(cores),
        "--prefix"@,
        prefix,
    ]
}

/// The arguments of the coalescence job.
pub open spec fn msc_args(gene_trees: Seq<char>, output: Seq<char>) -> Seq<Seq<char>> {
    seq!["-i"@, gene_trees, "-o"@, output]
}

/// Appends one argument.
pub fn push_arg(args: &mut Vec<String>, a: &str)
    ensures
        views(final(args)@) == views(old(args)@).push(a@),
{
    args.push(String::from_str(a));
    assert(views(args@) =~= views(old(args)@).push(a@));
}

/// The arguments of an inference job on `alignment` whose files are named
/// after `prefix`, with optional override parameters.
pub fn inference_job_args(alignment: &str, prefix: &str, params: &Option<String>) -> (r: Vec<
    String,
>)
    ensures
        views(r@) == inference_args(alignment@, prefix@, opt_view(*params)),
{
    let mut args: Vec<String> = Vec::new();
    push_arg(&mut args, "-s");
    push_arg(&mut args, alignment);
    match params {
        None => {
            push_arg(&mut args, "-T");
            push_arg(&mut args, "1");
            push_arg(&mut args, "--prefix");
            push_arg(&mut args, prefix);
            push_arg(&mut args, "-B");
            push_arg(&mut args, "1000");
            assert(views(args@) =~= inference_args(alignment@, prefix@, opt_view(*params)));
        },
        Some(p) => {
            push_arg(&mut args, "--prefix");
            push_arg(&mut args, prefix);
            let ghost fixed = views(args@);
            assert(fixed =~= seq!["-s"@, alignment@, "--prefix"@, prefix@]);
            let extra = split_words(p.as_str());
            let mut i: usize = 0;
            while i < extra.len()
                invariant
                    i <= extra@.len(),
                    views(extra@) == words(p@),
                    views(args@) == fixed + views(extra@).subrange(0, i as int),
                decreases extra@.len() - i,
            {
                push_arg(&mut args, extra[i].as_str());
                assert(views(extra@).subrange(0, i + 1) =~= views(extra@).subrange(
                    0,
                    i as int,
                ).push(extra@[i as int]@));
                i = i + 1;
            }
            assert(views(extra@).subrange(0, i as int) =~= views(extra@));
        },
    }
    args
}

/// Relies on `num_cpus::get_physical`: the number of physical cores of this
/// machine, which nothing here can predict.
#[verifier::external_body]
fn physical_cores() -> usize {
    num_cpus::get_physical()
}

/// The concordance factor job's arguments for the alignments in `alignments`,
/// using `cores` threads.
pub fn concordance_job_args_with(layout: &Layout, alignments: &str, cores: usize) -> (r: Vec<
    String,
>)
    ensures
        views(r@) == concordance_args(
            layout.species_tree_file(),
            layout.gene_tree_name@,
            alignments@,
            cores as nat,
            layout.concord_prefix@,
        ),
{
    let mut tree = String::from_str(layout.species_prefix.as_str());
    tree.append(".");
    tree.append(crate::layout::TREE_EXT);
    let mut args: Vec<String> = Vec::new();
    push_arg(&mut args, "-t");
    push_arg(&mut args, tree.as_str());
    push_arg(&mut args, "--gcf");
    push_arg(&mut args, layout.gene_tree_name.as_str());
    push_arg(&mut args, "-p");
    push_arg(&mut args, alignments);
    push_arg(&mut args, "--scf");
    push_arg(&mut args, "100");
    push_arg(&mut args, "-T");
    let n = decimal_text(cores as u64);
    push_arg(&mut args, n.as_str());
    push_arg(&mut args, "--prefix");
    push_arg(&mut args, layout.concord_prefix.as_str());
    proof {
        reveal_strlit(".");
    }
    assert(tree@ =~= layout.species_tree_file());
    assert(views(args@) =~= concordance_args(
        layout.species_tree_file(),
        layout.gene_tree_name@,
        alignments@,
        cores as nat,
        layout.concord_prefix@,
    ));
    args
}

/// The concordance factor job's arguments, with one thread for each physical
/// core of this machine.
pub fn concordance_job_args(layout: &Layout, alignments: &str) -> (r: Vec<String>)
    ensures
        exists|cores: nat|
            views(r@) == concordance_args(
                layout.species_tree_file(),
                layout.gene_tree_name@,
                alignments@,
                cores,
                layout.concord_prefix@,
            ),
{
    let cores = physical_cores();
    concordance_job_args_with(layout, alignments, cores)
}

/// The coalescence job's arguments.
pub fn msc_job_args(layout: &Layout) -> (r: Vec<String>)
    ensures
        views(r@) == msc_args(layout.gene_tree_name@, layout.astral_tree_name@),
{
    let mut args: Vec<String> = Vec::new();
    push_arg(&mut args, "-i");
    push_arg(&mut args, layout.gene_tree_name.as_str());
    push_arg(&mut args, "-o");
    push_arg(&mut args, layout.astral_tree_name.as_str());
    assert(views(args@) =~= msc_args(layout.gene_tree_name@, layout.astral_tree_name@));
    args
}

} // verus!
