use myte::batch::{combine_trees, BatchError, GeneBatch, Phase};
use myte::collect::{concordance_collector, gene_collector, result_pattern_of, species_collector};
use myte::command::{
    concordance_job_args, concordance_job_args_with, inference_job_args, msc_job_args,
};
use myte::iqtree::{nexus_pattern, Iqtree};
use myte::layout::{
    alignment_pattern, InputFmt, Layout, ASTRAL_TREE_NAME, GENE_TREE_NAME,
};
use myte::report::check_process_success;

fn strings(v: &[&str]) -> Vec<String> {
    v.iter().map(|s| s.to_string()).collect()
}

#[test]
fn get_genetree_fname_test() {
    let name = "genes.treefiles";
    assert_eq!(name, GENE_TREE_NAME);
}

#[test]
fn get_astral_fname_test() {
    let name = "msc_astral.tree";
    assert_eq!(name, ASTRAL_TREE_NAME);
}

#[test]
fn get_iqtree_version_test() {
    let version = 2;
    let mut iqtree = Iqtree::new(version, ".", "loci", ".");
    iqtree.get_iqtree_version();
    assert_eq!("iqtree2", iqtree.command);
}

#[test]
fn iqtree_other_version_keeps_name() {
    let mut iqtree = Iqtree::new(1, ".", "loci", ".");
    iqtree.get_iqtree_version();
    assert_eq!("iqtree", iqtree.command);
}

#[test]
fn iqtree_call_args_use_auto_threads() {
    let iqtree = Iqtree::new(2, "aln/locus1.nexus", "locus1", "treefiles");
    assert_eq!(
        iqtree.call_args(),
        strings(&["-s", "aln/locus1.nexus", "-T", "AUTO", "--prefix", "locus1"])
    );
    let c = iqtree.collector();
    assert_eq!(c.destination_of("locus1.treefile"), Some("treefiles/locus1.treefile".to_string()));
    assert_eq!(c.destination_of("locus1.log"), Some("iqtree-genes/locus1/locus1.log".to_string()));
    assert_eq!(nexus_pattern("aln"), "aln/*.nexus");
}

#[test]
fn override_params_replace_defaults() {
    let args = inference_job_args("loci/geneA.nexus", "geneA", &Some("-m GTR -B 1000".to_string()));
    assert_eq!(
        args,
        strings(&["-s", "loci/geneA.nexus", "--prefix", "geneA", "-m", "GTR", "-B", "1000"])
    );
    assert!(!args.contains(&"-T".to_string()));
}

#[test]
fn default_params_one_thread_and_bootstrap() {
    let args = inference_job_args("loci/geneA.nexus", "geneA", &None);
    assert_eq!(
        args,
        strings(&["-s", "loci/geneA.nexus", "-T", "1", "--prefix", "geneA", "-B", "1000"])
    );
}

#[test]
fn override_params_split_on_any_whitespace() {
    let args = inference_job_args("a.phy", "a", &Some("  -m\tGTR\n -T\u{3000}4  ".to_string()));
    assert_eq!(args, strings(&["-s", "a.phy", "--prefix", "a", "-m", "GTR", "-T", "4"]));
    let empty = inference_job_args("a.phy", "a", &Some("   ".to_string()));
    assert_eq!(empty, strings(&["-s", "a.phy", "--prefix", "a"]));
}

#[test]
fn concordance_args_are_fixed() {
    let layout = Layout::standard();
    let args = concordance_job_args_with(&layout, "loci", 12);
    assert_eq!(
        args,
        strings(&[
            "-t", "concat.treefile", "--gcf", "genes.treefiles", "-p", "loci", "--scf", "100",
            "-T", "12", "--prefix", "concord",
        ])
    );
}

#[test]
fn concordance_args_count_physical_cores() {
    let layout = Layout::standard();
    let args = concordance_job_args(&layout, "loci");
    assert_eq!(args.len(), 12);
    let cores: usize = args[9].parse().unwrap();
    assert_eq!(args[9], cores.to_string());
    assert_eq!(args[8], "-T");
}

#[test]
fn msc_args_are_fixed() {
    let layout = Layout::standard();
    assert_eq!(msc_job_args(&layout), strings(&["-i", "genes.treefiles", "-o", "msc_astral.tree"]));
}

#[test]
fn standard_layout_names() {
    let l = Layout::standard();
    assert_eq!(l.iqtree_exe, "iqtree2");
    assert_eq!(l.astral_exe, "astral.sh");
    assert_eq!(l.gene_tree_dir, "gene-treefiles");
    assert_eq!(l.gene_archive_dir, "iqtree-genes");
    assert_eq!(l.species_dir, "iqtree-species-tree");
    assert_eq!(l.concord_dir, "iqtree-CF");
    assert_eq!(l.astral_log_name, "msc_astral.log");
}

#[test]
fn alignment_patterns_per_format() {
    assert_eq!(alignment_pattern("loci", InputFmt::Fasta), "loci/*.fa*");
    assert_eq!(alignment_pattern("loci", InputFmt::Nexus), "loci/*.nex*");
    assert_eq!(alignment_pattern("loci", InputFmt::Phylip), "loci/*.phy*");
    assert_eq!(result_pattern_of("geneA"), "geneA.*");
}

#[test]
fn collector_separates_tree_from_archive() {
    let layout = Layout::standard();
    let c = gene_collector(&layout, "prefix");
    let files = strings(&["prefix.treefile", "prefix.log", "prefix.iqtree"]);
    let plan = c.plan(&files);
    assert_eq!(
        plan,
        vec![
            Some("gene-treefiles/prefix.treefile".to_string()),
            Some("iqtree-genes/prefix/prefix.log".to_string()),
            Some("iqtree-genes/prefix/prefix.iqtree".to_string()),
        ]
    );
}

#[test]
fn collector_keeps_file_name_only() {
    let layout = Layout::standard();
    let c = gene_collector(&layout, "g");
    assert_eq!(c.destination_of("work/g.ckp.gz"), Some("iqtree-genes/g/g.ckp.gz".to_string()));
    assert_eq!(c.destination_of("g.treefile"), Some("gene-treefiles/g.treefile".to_string()));
}

#[test]
fn species_and_concordance_trees_stay() {
    let layout = Layout::standard();
    let s = species_collector(&layout);
    assert_eq!(s.destination_of("concat.treefile"), None);
    assert_eq!(s.destination_of("concat.log"), Some("iqtree-species-tree/concat.log".to_string()));
    let c = concordance_collector(&layout);
    assert_eq!(c.destination_of("concord.cf.tree"), Some("iqtree-CF/concord.cf.tree".to_string()));
    assert_eq!(c.destination_of("concord.tre"), None);
}

#[test]
fn distinct_stems_never_share_outputs() {
    let layout = Layout::standard();
    let a = gene_collector(&layout, "geneA");
    let b = gene_collector(&layout, "geneB");
    let fa = strings(&["geneA.treefile", "geneA.log", "geneA.iqtree"]);
    let fb = strings(&["geneB.treefile", "geneB.log", "geneB.iqtree"]);
    let mut all: Vec<String> = a.plan(&fa).into_iter().flatten().collect();
    all.extend(b.plan(&fb).into_iter().flatten());
    let mut dedup = all.clone();
    dedup.sort();
    dedup.dedup();
    assert_eq!(all.len(), 6);
    assert_eq!(dedup.len(), 6);
}

#[test]
fn single_alignment_aborts_batch() {
    let r = GeneBatch::discover(&strings(&["loci/only.nexus"]), &None);
    assert_eq!(r.err(), Some(BatchError::TooFewAlignments(1)));
    let r0 = GeneBatch::discover(&Vec::new(), &None);
    assert_eq!(r0.err(), Some(BatchError::TooFewAlignments(0)));
}

#[test]
fn duplicate_prefix_aborts_batch() {
    let r = GeneBatch::discover(&strings(&["a/x.nexus", "b/y.nexus", "c/x.nex"]), &None);
    assert_eq!(r.err(), Some(BatchError::DuplicatePrefix("x".to_string())));
}

#[test]
fn one_job_per_alignment() {
    let paths = strings(&["loci/g1.fasta", "loci/g2.fasta", "loci/g3.fas"]);
    let b = GeneBatch::discover(&paths, &Some("-m GTR".to_string())).unwrap();
    assert_eq!(b.jobs.len(), 3);
    assert_eq!(b.phase, Phase::Dispatching);
    let prefixes: Vec<&str> = b.jobs.iter().map(|j| j.prefix.as_str()).collect();
    assert_eq!(prefixes, vec!["g1", "g2", "g3"]);
    assert_eq!(b.jobs[2].args, strings(&["-s", "loci/g3.fas", "--prefix", "g3", "-m", "GTR"]));
}

#[test]
fn single_fault_leaves_other_trees() {
    let layout = Layout::standard();
    let paths = strings(&["loci/g1.nexus", "loci/g2.nexus", "loci/g3.nexus"]);
    let mut b = GeneBatch::discover(&paths, &None).unwrap();
    assert_eq!(b.record_outcome(2, true), Ok(()));
    assert_eq!(b.record_outcome(1, false), Ok(()));
    assert_eq!(b.finish_dispatch(), Err(BatchError::JobsPending));
    assert_eq!(b.record_outcome(0, true), Ok(()));
    assert_eq!(b.finish_dispatch(), Ok(()));
    let report = check_process_success(false, "loci/g2.nexus", "bad alignment", "");
    assert_eq!(report.len(), 3);
    assert!(report[0].contains("loci/g2.nexus"));
    assert_eq!(b.tree_path_of(&layout, 1), "gene-treefiles/g2.treefile");
    let trees = vec![Some("(a,b);\n".to_string()), None, Some("  (c,d);  ".to_string())];
    let combined = b.aggregate(&trees).unwrap();
    assert_eq!(combined, "(a,b);\n(c,d);\n");
    assert_eq!(combined.lines().count(), 2);
    assert_eq!(b.phase, Phase::Done);
}

#[test]
fn outcome_recorded_once() {
    let mut b = GeneBatch::discover(&strings(&["a.nex", "b.nex"]), &None).unwrap();
    assert_eq!(b.record_outcome(5, true), Err(BatchError::UnknownJob(5)));
    assert_eq!(b.record_outcome(0, false), Ok(()));
    assert_eq!(b.record_outcome(0, true), Err(BatchError::UnknownJob(0)));
    assert_eq!(b.outcomes, vec![Some(false), None]);
}

#[test]
fn aggregation_waits_for_barrier() {
    let mut b = GeneBatch::discover(&strings(&["a.nex", "b.nex"]), &None).unwrap();
    let trees = vec![Some("(a);".to_string()), Some("(b);".to_string())];
    assert_eq!(b.aggregate(&trees), Err(BatchError::WrongPhase));
    b.record_outcome(0, true).unwrap();
    b.record_outcome(1, true).unwrap();
    b.finish_dispatch().unwrap();
    assert_eq!(b.finish_dispatch(), Err(BatchError::WrongPhase));
    assert_eq!(b.record_outcome(0, true), Err(BatchError::UnknownJob(0)));
    assert_eq!(b.aggregate(&vec![None]), Err(BatchError::WrongPhase));
    assert_eq!(b.aggregate(&trees), Ok("(a);\n(b);\n".to_string()));
}

#[test]
fn two_nexus_genes_end_to_end() {
    let layout = Layout::standard();
    let paths = strings(&["loci/geneA.nexus", "loci/geneB.nexus"]);
    let mut b = GeneBatch::discover(&paths, &None).unwrap();
    for i in 0..2 {
        b.record_outcome(i, true).unwrap();
    }
    b.finish_dispatch().unwrap();
    assert_eq!(b.tree_path_of(&layout, 0), "gene-treefiles/geneA.treefile");
    assert_eq!(b.tree_path_of(&layout, 1), "gene-treefiles/geneB.treefile");
    let ca = gene_collector(&layout, &b.jobs[0].prefix);
    let cb = gene_collector(&layout, &b.jobs[1].prefix);
    assert_eq!(ca.destination_of("geneA.treefile"), Some("gene-treefiles/geneA.treefile".to_string()));
    assert_eq!(ca.destination_of("geneA.log"), Some("iqtree-genes/geneA/geneA.log".to_string()));
    assert_eq!(cb.destination_of("geneB.iqtree"), Some("iqtree-genes/geneB/geneB.iqtree".to_string()));
    let combined = b
        .aggregate(&vec![Some("(A1,A2);\n".to_string()), Some("(B1,B2);\n".to_string())])
        .unwrap();
    assert_eq!(combined, "(A1,A2);\n(B1,B2);\n");
}

#[test]
fn combine_skips_missing_and_trims() {
    let trees = vec![None, Some("\t(x,y);\r\n".to_string()), None];
    assert_eq!(combine_trees(&trees), "(x,y);\n");
    assert_eq!(combine_trees(&Vec::new()), "");
}

#[test]
fn runner_failure_report() {
    let iqtree = Iqtree::new(2, "aln/l1.nexus", "l1", "treefiles");
    assert_eq!(iqtree.check_iqtree_success(true, "o", "e"), None);
    let (out, err) = iqtree.check_iqtree_success(false, "o\n", "e\n").unwrap();
    assert_eq!(out, "\n\x1b[0;41mIQ-TREE FAILED TO PROCESS aln/l1.nexus\x1b[0mo\ne\n");
    assert_eq!(
        err,
        "\x1b[0;41mERROR:\x1b[0m IQ-TREE failed to process aln/l1.nexus. See the log output above.\n"
    );
}
