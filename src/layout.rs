//! The fixed file and directory names of the pipeline, gathered in one value
//! that each stage is handed, and the input alignment formats.
use crate::paths::{join, joined};
use vstd::prelude::*;

verus! {

/// The tree-inference program.
pub const IQTREE_EXE: &'static str = "iqtree2";

/// The coalescence program.
pub const ASTRAL_EXE: &'static str = "astral.sh";

/// The file that collects every gene tree, one per line.
pub const GENE_TREE_NAME: &'static str = "genes.treefiles";

/// The directory that receives each gene tree file.
pub const GENE_TREE_DIR: &'static str = "gene-treefiles";

/// The directory under which each gene job's other files are kept.
pub const GENE_TREE_OUTPUT_DIR: &'static str = "iqtree-genes";

/// The job prefix of the species tree.
pub const SPECIES_TREE_PREFIX: &'static str = "concat";

/// The directory of the species tree job's other files.
pub const SPECIES_TREE_OUTPUT_DIR: &'static str = "iqtree-species-tree";

/// The job prefix of the concordance factor analysis.
pub const CONCORD_FACTOR_PREFIX: &'static str = "concord";

/// The directory of the concordance factor job's other files.
pub const CONCORD_FACTOR_OUTPUT_DIR: &'static str = "iqtree-CF";

/// The tree that the coalescence program writes.
pub const ASTRAL_TREE_NAME: &'static str = "msc_astral.tree";

/// The file that receives the coalescence program's report.
pub const ASTRAL_LOG_NAME: &'static str = "msc_astral.log";

/// The extension of a tree-inference result tree.
pub const TREE_EXT: &'static str = "treefile";

/// The extension of the concordance factor result tree.
pub const CONCORD_TREE_EXT: &'static str = "tre";

/// Where each stage reads and writes, relative to the working directory.
pub struct Layout {
    pub iqtree_exe: String,
    pub astral_exe: String,
    pub gene_tree_name: String,
    pub gene_tree_dir: String,
    pub gene_archive_dir: String,
    pub species_prefix: String,
    pub species_dir: String,
    pub concord_prefix: String,
    pub concord_dir: String,
    pub astral_tree_name: String,
    pub astral_log_name: String,
}

/// A single path component: not empty and without a separator.
pub open spec fn is_component(s: Seq<char>) -> bool {
    s.len() > 0 && !s.contains('/')
}

impl Layout {
    /// The gene stage's two directories are distinct single components.
    pub open spec fn wf(&self) -> bool {
        &&& is_component(self.gene_tree_dir@)
        &&& is_component(self.gene_archive_dir@)
        &&& self.gene_tree_dir@ != self.gene_archive_dir@
    }

    /// The species tree that the concordance stage reads.
    pub open spec fn species_tree_file(&self) -> Seq<char> {
        self.species_prefix@ + seq!['.'] + TREE_EXT@
    }

    /// The pipeline's usual names.
    pub fn standard() -> (r: Layout)
        ensures
            r.wf(),
            r.iqtree_exe@ == IQTREE_EXE@,
            r.astral_exe@ == ASTRAL_EXE@,
            r.gene_tree_name@ == GENE_TREE_NAME@,
            r.gene_tree_dir@ == GENE_TREE_DIR@,
            r.gene_archive_dir@ == GENE_TREE_OUTPUT_DIR@,
            r.species_prefix@ == SPECIES_TREE_PREFIX@,
            r.species_dir@ == SPECIES_TREE_OUTPUT_DIR@,
            r.concord_prefix@ == CONCORD_FACTOR_PREFIX@,
            r.concord_dir@ == CONCORD_FACTOR_OUTPUT_DIR@,
            r.astral_tree_name@ == ASTRAL_TREE_NAME@,
            r.astral_log_name@ == ASTRAL_LOG_NAME@,
    {
        proof {
            reveal_strlit("gene-treefiles");
            reveal_strlit("iqtree-genes");
        }
        let r = Layout {
            iqtree_exe: String::from_str(IQTREE_EXE),
            astral_exe: String::from_str(ASTRAL_EXE),
            gene_tree_name: String::from_str(GENE_TREE_NAME),
            gene_tree_dir: String::from_str(GENE_TREE_DIR),
            gene_archive_dir: String::from_str(GENE_TREE_OUTPUT_DIR),
            species_prefix: String::from_str(SPECIES_TREE_PREFIX),
            species_dir: String::from_str(SPECIES_TREE_OUTPUT_DIR),
            concord_prefix: String::from_str(CONCORD_FACTOR_PREFIX),
            concord_dir: String::from_str(CONCORD_FACTOR_OUTPUT_DIR),
            astral_tree_name: String::from_str(ASTRAL_TREE_NAME),
            astral_log_name: String::from_str(ASTRAL_LOG_NAME),
        };
        assert(r.gene_tree_dir@[0] != r.gene_archive_dir@[0]);
        r
    }
}

/// The alignment formats that the gene stage looks for.
#[derive(Clone, Copy, Debug, PartialEq, Eq, Structural)]
pub enum InputFmt {
    Fasta,
    Nexus,
    Phylip,
}

/// The file-name pattern of a format.
pub open spec fn format_pattern(fmt: InputFmt) -> Seq<char> {
    match fmt {
        InputFmt::Fasta => "*.fa*"@,
        InputFmt::Nexus => "*.nex*"@,
        InputFmt::Phylip => "*.phy*"@,
    }
}

/// The pattern that finds the alignments of format `fmt` in `dir`.
pub fn alignment_pattern(dir: &str, fmt: InputFmt) -> (r: String)
    ensures
        r@ == join(dir@, format_pattern(fmt)),
{
    match fmt {
        InputFmt::Fasta => joined(dir, "*.fa*"),
        InputFmt::Nexus => joined(dir, "*.nex*"),
        InputFmt::Phylip => joined(dir, "*.phy*"),
    }
}

} // verus!
