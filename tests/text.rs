use myte::cli::{
    log_input, parse_cli, parse_input_fmt, print_cf_tree_header, print_complete,
    print_gene_tree_header, print_msc_tree_header, print_species_tree_header, CliArgs, CliError,
    Stage, Step,
};
use myte::deps::{astral_launcher, astral_status, check_dependencies, iqtree_status, DepError};
use myte::layout::InputFmt;
use myte::paths::{extension_of, file_name_of, joined, parent_of, stem_of};
use myte::report::{
    check_process_success, field, parse_duration, print_divider, print_formatted_duration,
    PrettyDivider,
};
use myte::text::{decimal_text, split_words, trimmed};

#[test]
fn time_parsing_test() {
    let duration = 65;
    let duration_2 = 3600;
    let time = parse_duration(duration);
    let hours = parse_duration(duration_2);

    assert_eq!("00:01:05", time);
    assert_eq!("01:00:00", hours);
}

#[test]
fn duration_edges() {
    assert_eq!(parse_duration(0), "00:00:00");
    assert_eq!(parse_duration(86399), "23:59:59");
    assert_eq!(print_formatted_duration(3725), "Execution time (HH:MM:SS): 01:02:05");
}

#[test]
fn divider_even_text() {
    assert_eq!(print_divider("AB", 10), "\x1b[0;33m==== AB ====\n\x1b[0m");
}

#[test]
fn divider_odd_text_gets_extra_symbol() {
    assert_eq!(print_divider("ABC", 10), "\x1b[0;33m=== ABC ====\n\x1b[0m");
}

#[test]
fn divider_long_text_stands_alone() {
    assert_eq!(print_divider("ABCDEF", 4), "\x1b[0;33mABCDEF\n\x1b[0m");
}

#[test]
fn divider_text_as_long_as_line() {
    assert_eq!(print_divider("ABCD", 4), "\x1b[0;33m==== ABCD ====\n\x1b[0m");
}

#[test]
fn divider_counts_bytes() {
    let mut d = PrettyDivider::new("é", '-', 6);
    d.get_len();
    assert_eq!(d.text_len, 2);
    assert_eq!(d.sym_len, 2);
    assert_eq!(d.print_with_symbol(), "-- é --\n");
    assert_eq!(d.print_symbols(), "--");
}

#[test]
fn stage_headers() {
    let run = "=".repeat(25);
    assert_eq!(
        print_species_tree_header(80),
        format!("\x1b[0;33m{run} IQ-TREE: SPECIES TREE ANALYSES {run}\n\x1b[0m")
    );
    let g = print_gene_tree_header(80);
    assert!(g.contains(" IQ-TREE: GENE TREE ANALYSES "));
    assert!(print_cf_tree_header(80).contains("CONCORDANCE FACTOR"));
    assert!(print_msc_tree_header(20).starts_with("\x1b[0;33mASTRAL-MP"));
}

#[test]
fn failure_report_names_path() {
    let lines = check_process_success(false, "loci/g.nex", "out text", "err text");
    assert_eq!(
        lines,
        vec![
            "\x1b[41;37mERROR\x1b[0m: IQ-TREE failed to process loci/g.nex (See below).".to_string(),
            "out text".to_string(),
            "err text".to_string(),
        ]
    );
    assert!(check_process_success(true, "loci/g.nex", "o", "e").is_empty());
}

#[test]
fn padded_fields() {
    assert_eq!(field("Input", "loci"), format!("Input{}: loci", " ".repeat(13)));
    assert_eq!(field("A label longer than 18", "x"), "A label longer than 18: x");
}

#[test]
fn log_input_lines() {
    assert_eq!(
        log_input("loci", &Some("-m GTR".to_string())),
        vec![format!("{:18}: loci", "Input"), format!("{:18}: -m GTR", "Opt params")]
    );
    assert_eq!(log_input("loci", &None)[1], format!("{:18}: None", "Params"));
    assert_eq!(print_complete()[0], "COMPLETED!");
}

#[test]
fn text_helpers() {
    assert_eq!(trimmed("  a b \n"), "a b");
    assert_eq!(trimmed(" \t "), "");
    assert_eq!(split_words(" a  bc\td "), vec!["a", "bc", "d"]);
    assert!(split_words("").is_empty());
    assert_eq!(decimal_text(0), "0");
    assert_eq!(decimal_text(1234567890), "1234567890");
    assert_eq!(decimal_text(u64::MAX), u64::MAX.to_string());
}

#[test]
fn path_helpers() {
    assert_eq!(stem_of("loci/geneA.nexus"), "geneA");
    assert_eq!(stem_of("a.tar.gz"), "a.tar");
    assert_eq!(stem_of("dir/.hidden"), ".hidden");
    assert_eq!(stem_of("plain"), "plain");
    assert_eq!(file_name_of("x/y/z.fa"), "z.fa");
    assert_eq!(extension_of("z.fa"), Some("fa"));
    assert_eq!(extension_of(".bashrc"), None);
    assert_eq!(extension_of("noext"), None);
    assert_eq!(parent_of("/opt/a.jar"), Some("/opt".to_string()));
    assert_eq!(parent_of("/a.jar"), Some("/".to_string()));
    assert_eq!(parent_of("a.jar"), None);
    assert_eq!(joined("d", "f"), "d/f");
}

fn args(sub: &str) -> CliArgs {
    CliArgs {
        subcommand: sub.to_string(),
        deps_subcommand: None,
        dir: Some("loci".to_string()),
        opts_species: None,
        opts_gene: Some(" -T 1 ".to_string()),
        input_fmt: Some("nexus".to_string()),
        jar: None,
    }
}

#[test]
fn auto_runs_stages_in_order() {
    let mut a = args("auto");
    a.opts_species = Some(" -B 1000 ".to_string());
    let steps = parse_cli(&a).unwrap();
    assert_eq!(steps.len(), 12);
    assert!(matches!(steps[0], Step::ShowAppInfo));
    assert!(matches!(steps[1], Step::ShowHeader(Stage::Species)));
    match &steps[3] {
        Step::SpeciesTree { dir, params } => {
            assert_eq!(dir, "loci");
            assert_eq!(params.as_deref(), Some("-B 1000"));
        }
        other => panic!("unexpected {:?}", other),
    }
    match &steps[6] {
        Step::GeneTrees { dir, params, fmt } => {
            assert_eq!(dir, "loci");
            assert_eq!(params.as_deref(), Some("-T 1"));
            assert_eq!(*fmt, InputFmt::Nexus);
        }
        other => panic!("unexpected {:?}", other),
    }
    assert!(matches!(steps[8], Step::ConcordanceFactor { .. }));
    assert!(matches!(steps[10], Step::MscTree { .. }));
    assert!(matches!(steps[11], Step::ShowComplete));
}

#[test]
fn gene_and_check_plans() {
    let steps = parse_cli(&args("gene")).unwrap();
    assert_eq!(steps.len(), 4);
    assert!(matches!(steps[2], Step::GeneTrees { .. }));
    let check = parse_cli(&args("check")).unwrap();
    assert_eq!(check.len(), 1);
    let mut d = args("deps");
    d.deps_subcommand = Some("astral".to_string());
    d.jar = Some("astral.jar".to_string());
    match &parse_cli(&d).unwrap()[0] {
        Step::FixAstral { jar } => assert_eq!(jar, "astral.jar"),
        other => panic!("unexpected {:?}", other),
    }
}

#[test]
fn cli_errors() {
    let mut a = args("gene");
    a.dir = None;
    assert_eq!(parse_cli(&a).err(), Some(CliError::MissingDir));
    let mut b = args("auto");
    b.opts_gene = None;
    assert_eq!(parse_cli(&b).err(), Some(CliError::MissingParams));
    let mut c = args("auto");
    c.input_fmt = Some("clustal".to_string());
    assert_eq!(parse_cli(&c).err(), Some(CliError::UnknownFormat("clustal".to_string())));
    let mut m = args("auto");
    m.input_fmt = None;
    assert_eq!(parse_cli(&m).err(), Some(CliError::MissingFormat));
    let mut d = args("deps");
    d.deps_subcommand = Some("astral".to_string());
    assert_eq!(parse_cli(&d).err(), Some(CliError::MissingJar));
    assert_eq!(parse_cli(&args("other")).err(), Some(CliError::UnknownCommand("other".to_string())));
    assert_eq!(parse_input_fmt("phylip"), Some(InputFmt::Phylip));
    assert_eq!(parse_input_fmt("fasta"), Some(InputFmt::Fasta));
}

#[test]
fn dependency_lines() {
    let out = Some("IQ-TREE multicore version 2.1.3 COVID-edition for Linux 64-bit\n".to_string());
    assert_eq!(iqtree_status(&out), Ok(format!("{:18}: IQ-TREE v2.1.3", "[OK]")));
    assert_eq!(iqtree_status(&None), Ok(format!("{:18}: IQ-TREE", "[NOT FOUND]")));
    assert_eq!(iqtree_status(&Some("no number".to_string())), Err(DepError::NoVersion));
    assert_eq!(astral_status(false), format!("{:18}: ASTRAL", "[NOT FOUND]"));
    let lines = check_dependencies(&out, true).unwrap();
    assert_eq!(lines[0], "\x1b[33mDependencies\x1b[0m");
    assert_eq!(lines[2], format!("{:18}: ASTRAL", "[OK]"));
}

#[test]
fn astral_launcher_script() {
    assert_eq!(
        astral_launcher("/opt/astral/astral.5.7.8.jar"),
        Some(
            "#!/bin/bash\njava -D\"java.library.path=/opt/astral/lib\" -jar /opt/astral/astral.5.7.8.jar \"$@\"\n"
                .to_string()
        )
    );
    assert_eq!(astral_launcher("astral.jar"), None);
}
