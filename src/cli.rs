//! What each subcommand does, as a plan of steps: the values that the
//! argument parser found go in, the ordered steps come out. The stages run in
//! the one order in which each finds the file that the one before wrote.
use crate::command::opt_view;
use crate::layout::InputFmt;
use crate::report::{divider, field, field_line, print_divider};
use crate::text::{trim, trimmed, views};
use vstd::prelude::*;

verus! {

/// The values that the argument parser found.
pub struct CliArgs {
    /// The subcommand: `auto`, `gene`, `check` or `deps`.
    pub subcommand: String,
    /// The subcommand under `deps`.
    pub deps_subcommand: Option<String>,
    pub dir: Option<String>,
    pub opts_species: Option<String>,
    pub opts_gene: Option<String>,
    pub input_fmt: Option<String>,
    pub jar: Option<String>,
}

/// Why the arguments give no plan.
#[derive(Debug, PartialEq, Eq)]
pub enum CliError {
    MissingDir,
    MissingParams,
    MissingFormat,
    UnknownFormat(String),
    MissingJar,
    UnknownCommand(String),
}

/// The analyses, each with its section header.
#[derive(Clone, Copy, Debug, PartialEq, Eq, Structural)]
pub enum Stage {
    Species,
    Gene,
    Concordance,
    Msc,
}

/// One step of a run.
#[derive(Debug)]
pub enum Step {
    /// Report the program, the machine and the dependencies.
    ShowAppInfo,
    /// Write the section header of a stage.
    ShowHeader(Stage),
    /// Report the input directory and parameters.
    LogInput { path: String, params: Option<String> },
    SpeciesTree { dir: String, params: Option<String> },
    GeneTrees { dir: String, params: Option<String>, fmt: InputFmt },
    ConcordanceFactor { dir: String },
    MscTree { dir: String },
    /// Report that the run is complete.
    ShowComplete,
    /// Write the launcher script of the coalescence program.
    FixAstral { jar: String },
}

/// A step with its strings as character sequences.
pub enum StepV {
    ShowAppInfo,
    ShowHeader(Stage),
    LogInput { path: Seq<char>, params: Option<Seq<char>> },
    SpeciesTree { dir: Seq<char>, params: Option<Seq<char>> },
    GeneTrees { dir: Seq<char>, params: Option<Seq<char>>, fmt: InputFmt },
    ConcordanceFactor { dir: Seq<char> },
    MscTree { dir: Seq<char> },
    ShowComplete,
    FixAstral { jar: Seq<char> },
}

impl View for Step {
    type V = StepV;

    open spec fn view(&self) -> StepV {
        match self {
            Step::ShowAppInfo => StepV::ShowAppInfo,
            Step::ShowHeader(s) => StepV::ShowHeader(*s),
            Step::LogInput { path, params } => StepV::LogInput {
                path: path@,
                params: opt_view(*params),
            },
            Step::SpeciesTree { dir, params } => StepV::SpeciesTree {
                dir: dir@,
                params: opt_view(*params),
            },
            Step::GeneTrees { dir, params, fmt } => StepV::GeneTrees {
                dir: dir@,
                params: opt_view(*params),
                fmt: *fmt,
            },
            Step::ConcordanceFactor { dir } => StepV::ConcordanceFactor { dir: dir@ },
            Step::MscTree { dir } => StepV::MscTree { dir: dir@ },
            Step::ShowComplete => StepV::ShowComplete,
            Step::FixAstral { jar } => StepV::FixAstral { jar: jar@ },
        }
    }
}

/// The views of a list of steps.
pub open spec fn step_views(s: Seq<Step>) -> Seq<StepV> {
    s.map_values(|x: Step| x@)
}

/// The format that a name selects.
pub open spec fn format_named(name: Seq<char>) -> Option<InputFmt> {
    if name == "fasta"@ {
        Some(InputFmt::Fasta)
    } else if name == "nexus"@ {
        Some(InputFmt::Nexus)
    } else if name == "phylip"@ {
        Some(InputFmt::Phylip)
    } else {
        None
    }
}

/// The steps of a full run: species tree, gene trees, concordance factors,
/// then the coalescent tree.
pub open spec fn auto_plan(
    dir: Seq<char>,
    species: Option<Seq<char>>,
    gene: Seq<char>,
    fmt: InputFmt,
) -> Seq<StepV> {
    seq![
        StepV::ShowAppInfo,
        StepV::ShowHeader(Stage::Species),
        StepV::LogInput { path: dir, params: species },
        StepV::SpeciesTree { dir, params: species },
        StepV::ShowHeader(Stage::Gene),
        StepV::LogInput { path: dir, params: Some(gene) },
        StepV::GeneTrees { dir, params: Some(gene), fmt },
        StepV::ShowHeader(Stage::Concordance),
        StepV::ConcordanceFactor { dir },
        StepV::ShowHeader(Stage::Msc),
        StepV::MscTree { dir },
        StepV::ShowComplete,
    ]
}

/// The steps of a gene-tree run.
pub open spec fn gene_plan(dir: Seq<char>, gene: Seq<char>, fmt: InputFmt) -> Seq<StepV> {
    seq![
        StepV::ShowAppInfo,
        StepV::ShowHeader(Stage::Gene),
        StepV::GeneTrees { dir, params: Some(gene), fmt },
        StepV::ShowComplete,
    ]
}

/// The trimmed view of an optional string.
pub open spec fn opt_trim(o: Option<Seq<char>>) -> Option<Seq<char>> {
    match o {
        Some(s) => Some(trim(s)),
        None => None,
    }
}

/// The plan that the arguments give, or why they give none. The directory is
/// looked at first, then the gene parameters, then the format.
pub open spec fn plan_of(a: CliArgs) -> Result<Seq<StepV>, CliError> {
    let sub = a.subcommand@;
    if sub == "auto"@ || sub == "gene"@ {
        if a.dir is None {
            Err(CliError::MissingDir)
        } else if a.opts_gene is None {
            Err(CliError::MissingParams)
        } else if a.input_fmt is None {
            Err(CliError::MissingFormat)
        } else if format_named(a.input_fmt->0@) is None {
            Err(CliError::UnknownFormat(a.input_fmt->0))
        } else {
            let dir = a.dir->0@;
            let gene = trim(a.opts_gene->0@);
            let fmt = format_named(a.input_fmt->0@)->0;
            if sub == "auto"@ {
                Ok(auto_plan(dir, opt_trim(opt_view(a.opts_species)), gene, fmt))
            } else {
                Ok(gene_plan(dir, gene, fmt))
            }
        }
    } else if sub == "check"@ {
        Ok(seq![StepV::ShowAppInfo])
    } else if sub == "deps"@ {
        if a.deps_subcommand matches Some(d) && d@ == "astral"@ {
            match a.jar {
                Some(j) => Ok(seq![StepV::FixAstral { jar: j@ }]),
                None => Err(CliError::MissingJar),
            }
        } else {
            Err(CliError::UnknownCommand(a.subcommand))
        }
    } else {
        Err(CliError::UnknownCommand(a.subcommand))
    }
}

/// Whether two results agree, comparing plans by their views.
pub open spec fn same_result(r: Result<Vec<Step>, CliError>, s: Result<Seq<StepV>, CliError>) -> bool {
    match (r, s) {
        (Ok(v), Ok(p)) => step_views(v@) == p,
        (Err(e), Err(f)) => cli_error_eq(e, f),
        _ => false,
    }
}

/// Two errors are the same, comparing held strings by their views.
pub open spec fn cli_error_eq(e: CliError, f: CliError) -> bool {
    match (e, f) {
        (CliError::UnknownFormat(a), CliError::UnknownFormat(b)) => a@ == b@,
        (CliError::UnknownCommand(a), CliError::UnknownCommand(b)) => a@ == b@,
        (CliError::UnknownFormat(_), _) => false,
        (CliError::UnknownCommand(_), _) => false,
        (_, CliError::UnknownFormat(_)) => false,
        (_, CliError::UnknownCommand(_)) => false,
        _ => e == f,
    }
}

/// The format that `name` selects.
pub fn parse_input_fmt(name: &str) -> (r: Option<InputFmt>)
    ensures
        r == format_named(name@),
{
    let s = String::from_str(name);
    if s == String::from_str("fasta") {
        Some(InputFmt::Fasta)
    } else if s == String::from_str("nexus") {
        Some(InputFmt::Nexus)
    } else if s == String::from_str("phylip") {
        Some(InputFmt::Phylip)
    } else {
        None
    }
}

/// The optional parameters of the species tree, trimmed.
pub fn parse_params_species(value: &Option<String>) -> (r: Option<String>)
    ensures
        opt_view(r) == opt_trim(opt_view(*value)),
{
    match value {
        Some(v) => Some(trimmed(v.as_str())),
        None => None,
    }
}

fn clone_opt(o: &Option<String>) -> (r: Option<String>)
    ensures
        opt_view(r) == opt_view(*o),
{
    match o {
        Some(s) => Some(String::from_str(s.as_str())),
        None => None,
    }
}

/// The steps that the parsed arguments ask for.
pub fn parse_cli(args: &CliArgs) -> (r: Result<Vec<Step>, CliError>)
    ensures
        same_result(r, plan_of(*args)),
{
    let sub = &args.subcommand;
    let is_auto = *sub == String::from_str("auto");
    let is_gene = *sub == String::from_str("gene");
    if is_auto || is_gene {
        let dir = match &args.dir {
            Some(d) => d,
            None => {
                return Err(CliError::MissingDir);
            },
        };
        let gene = match &args.opts_gene {
            Some(g) => trimmed(g.as_str()),
            None => {
                return Err(CliError::MissingParams);
            },
        };
        let fmt_name = match &args.input_fmt {
            Some(f) => f,
            None => {
                return Err(CliError::MissingFormat);
            },
        };
        let fmt = match parse_input_fmt(fmt_name.as_str()) {
            Some(f) => f,
            None => {
                return Err(CliError::UnknownFormat(String::from_str(fmt_name.as_str())));
            },
        };
        let d = dir.as_str();
        let mut steps: Vec<Step> = Vec::new();
        steps.push(Step::ShowAppInfo);
        if is_auto {
            let species = parse_params_species(&args.opts_species);
            steps.push(Step::ShowHeader(Stage::Species));
            steps.push(Step::LogInput { path: String::from_str(d), params: clone_opt(&species) });
            steps.push(Step::SpeciesTree { dir: String::from_str(d), params: species });
            steps.push(Step::ShowHeader(Stage::Gene));
            steps.push(
                Step::LogInput {
                    path: String::from_str(d),
                    params: Some(String::from_str(gene.as_str())),
                },
            );
            steps.push(
                Step::GeneTrees {
                    dir: String::from_str(d),
                    params: Some(String::from_str(gene.as_str())),
                    fmt,
                },
            );
            steps.push(Step::ShowHeader(Stage::Concordance));
            steps.push(Step::ConcordanceFactor { dir: String::from_str(d) });
            steps.push(Step::ShowHeader(Stage::Msc));
            steps.push(Step::MscTree { dir: String::from_str(d) });
            steps.push(Step::ShowComplete);
        } else {
            steps.push(Step::ShowHeader(Stage::Gene));
            steps.push(
                Step::GeneTrees {
                    dir: String::from_str(d),
                    params: Some(String::from_str(gene.as_str())),
                    fmt,
                },
            );
            steps.push(Step::ShowComplete);
        }
        assert(step_views(steps@) =~= plan_of(*args)->Ok_0);
        Ok(steps)
    } else if *sub == String::from_str("check") {
        let mut steps: Vec<Step> = Vec::new();
        steps.push(Step::ShowAppInfo);
        assert(step_views(steps@) =~= seq![StepV::ShowAppInfo]);
        Ok(steps)
    } else if *sub == String::from_str("deps") {
        let is_astral = match &args.deps_subcommand {
            Some(d) => *d == String::from_str("astral"),
            None => false,
        };
        if !is_astral {
            return Err(CliError::UnknownCommand(String::from_str(sub.as_str())));
        }
        match &args.jar {
            Some(j) => {
                let mut steps: Vec<Step> = Vec::new();
                steps.push(Step::FixAstral { jar: String::from_str(j.as_str()) });
                assert(step_views(steps@) =~= seq![StepV::FixAstral { jar: j@ }]);
                Ok(steps)
            },
            None => Err(CliError::MissingJar),
        }
    } else {
        Err(CliError::UnknownCommand(String::from_str(sub.as_str())))
    }
}

/// The header text of each stage.
pub open spec fn header_text(stage: Stage) -> Seq<char> {
    match stage {
        Stage::Species => "IQ-TREE: SPECIES TREE ANALYSES"@,
        Stage::Gene => "IQ-TREE: GENE TREE ANALYSES"@,
        Stage::Concordance => "IQ-TREE: CONCORDANCE FACTOR ANALYSES"@,
        Stage::Msc => "ASTRAL-MP: MULTI-SPECIES COALESCENCE MODEL ANALYSES"@,
    }
}

/// The section header of `stage` on a line of `len`.
pub fn stage_header(stage: Stage, len: usize) -> (r: String)
    ensures
        r@ == divider(header_text(stage), '=', len as nat),
{
    let text = match stage {
        Stage::Species => "IQ-TREE: SPECIES TREE ANALYSES",
        Stage::Gene => "IQ-TREE: GENE TREE ANALYSES",
        Stage::Concordance => "IQ-TREE: CONCORDANCE FACTOR ANALYSES",
        Stage::Msc => "ASTRAL-MP: MULTI-SPECIES COALESCENCE MODEL ANALYSES",
    };
    proof {
        reveal_strlit("IQ-TREE: SPECIES TREE ANALYSES");
        reveal_strlit("IQ-TREE: GENE TREE ANALYSES");
        reveal_strlit("IQ-TREE: CONCORDANCE FACTOR ANALYSES");
        reveal_strlit("ASTRAL-MP: MULTI-SPECIES COALESCENCE MODEL ANALYSES");
        vstd::utf8::is_ascii_chars_encode_utf8(text@);
    }
    print_divider(text, len)
}

pub fn print_species_tree_header(len: usize) -> (r: String)
    ensures
        r@ == divider(header_text(Stage::Species), '=', len as nat),
{
    stage_header(Stage::Species, len)
}

pub fn print_gene_tree_header(len: usize) -> (r: String)
    ensures
        r@ == divider(header_text(Stage::Gene), '=', len as nat),
{
    stage_header(Stage::Gene, len)
}

pub fn print_cf_tree_header(len: usize) -> (r: String)
    ensures
        r@ == divider(header_text(Stage::Concordance), '=', len as nat),
{
    stage_header(Stage::Concordance, len)
}

pub fn print_msc_tree_header(len: usize) -> (r: String)
    ensures
        r@ == divider(header_text(Stage::Msc), '=', len as nat),
{
    stage_header(Stage::Msc, len)
}

/// The lines that report a stage's input directory and parameters.
pub fn log_input(path: &str, params: &Option<String>) -> (r: Vec<String>)
    ensures
        views(r@) == seq![
            field_line("Input"@, path@),
            match opt_view(*params) {
                Some(p) => field_line("Opt params"@, p),
                None => field_line("Params"@, "None"@),
            },
        ],
{
    let mut r: Vec<String> = Vec::new();
    r.push(field("Input", path));
    match params {
        Some(p) => r.push(field("Opt params", p.as_str())),
        None => r.push(field("Params", "None")),
    }
    assert(views(r@) =~= seq![
        field_line("Input"@, path@),
        match opt_view(*params) {
            Some(p) => field_line("Opt params"@, p),
            None => field_line("Params"@, "None"@),
        },
    ]);
    r
}

/// The lines that close a run.
pub fn print_complete() -> (r: Vec<String>)
    ensures
        views(r@) == seq![
            "COMPLETED!"@,
            "Please, check each program log for commands and other details!\n"@,
        ],
{
    let mut r: Vec<String> = Vec::new();
    r.push(String::from_str("COMPLETED!"));
    r.push(String::from_str("Please, check each program log for commands and other details!\n"));
    assert(views(r@) =~= seq![
        "COMPLETED!"@,
        "Please, check each program log for commands and other details!\n"@,
    ]);
    r
}

} // verus!
