//! Orchestration logic of a phylogenetic pipeline: the argument lists handed to
//! the tree-inference programs, where each result file goes once a job is done,
//! the gene-tree batch state machine, and the text the pipeline reports.
pub mod text;
pub mod paths;
pub mod layout;
pub mod command;
pub mod collect;
pub mod batch;
pub mod report;
pub mod cli;
pub mod deps;
pub mod iqtree;
