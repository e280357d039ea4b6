//! Dependency checks and the launcher of the coalescence program: the text
//! that reports which external programs answer, and the script that starts
//! the coalescence program's jar.
use crate::command::opt_view;
use crate::paths::{parent, parent_of, rfind};
use crate::report::{field, field_line, yellow, RESET};
use crate::text::{trim, trimmed, views};
use vstd::prelude::*;

verus! {

/// What the tree-inference program's version looks like in its output.
pub const VERSION_PATTERN: &'static str = "(\\d+\\.)?(\\d+\\.)?(\\*|\\d+)";

/// The first match of the regular expression `pattern` in `text`, or `None`
/// where there is none or the pattern does not compile.
pub uninterp spec fn first_match(pattern: Seq<char>, text: Seq<char>) -> Option<Seq<char>>;

/// Relies on regex: `Regex::new` compiles `pattern`, and `Regex::find` gives
/// its leftmost-first match in `text`, which depends on the two texts alone.
#[verifier::external_body]
fn find_first(pattern: &str, text: &str) -> (r: Option<String>)
    ensures
        opt_view(r) == first_match(pattern@, text@),
{
    match regex::Regex::new(pattern) {
        Ok(re) => re.find(text).map(|m| m.as_str().to_string()),
        Err(_) => None,
    }
}

/// Why the dependency report cannot be made.
#[derive(Debug, PartialEq, Eq)]
pub enum DepError {
    /// The tree-inference program answered without a version number.
    NoVersion,
}

/// The report line of the tree-inference program at `version`.
pub open spec fn iqtree_found_line(version: Seq<char>) -> Seq<char> {
    field_line("[OK]"@, "IQ-TREE v"@ + version)
}

/// The report line of the tree-inference program from its version output,
/// or the not-found line where it could not be run.
pub open spec fn iqtree_status_spec(stdout: Option<Seq<char>>) -> Result<Seq<char>, DepError> {
    match stdout {
        None => Ok(field_line("[NOT FOUND]"@, "IQ-TREE"@)),
        Some(out) => match first_match(VERSION_PATTERN@, trim(out)) {
            Some(v) => Ok(iqtree_found_line(v)),
            None => Err(DepError::NoVersion),
        },
    }
}

/// The report line of the tree-inference program at `version`.
pub fn iqtree_found(version: &str) -> (r: String)
    ensures
        r@ == iqtree_found_line(version@),
{
    let mut v = String::from_str("IQ-TREE v");
    v.append(version);
    field("[OK]", v.as_str())
}

/// The report line of the tree-inference program, given what it wrote when
/// asked for its version, or `None` where it could not be started.
pub fn iqtree_status(stdout: &Option<String>) -> (r: Result<String, DepError>)
    ensures
        match (r, iqtree_status_spec(opt_view(*stdout))) {
            (Ok(a), Ok(b)) => a@ == b,
            (Err(a), Err(b)) => a == b,
            _ => false,
        },
{
    match stdout {
        None => Ok(field("[NOT FOUND]", "IQ-TREE")),
        Some(out) => {
            let t = trimmed(out.as_str());
            match find_first(VERSION_PATTERN, t.as_str()) {
                Some(v) => Ok(iqtree_found(v.as_str())),
                None => Err(DepError::NoVersion),
            }
        },
    }
}

/// The report line of the coalescence program.
pub fn astral_status(found: bool) -> (r: String)
    ensures
        r@ == field_line(if found { "[OK]"@ } else { "[NOT FOUND]"@ }, "ASTRAL"@),
{
    if found {
        field("[OK]", "ASTRAL")
    } else {
        field("[NOT FOUND]", "ASTRAL")
    }
}

/// The dependency report: a yellow title, then one line for each program.
pub fn check_dependencies(iqtree_stdout: &Option<String>, astral_found: bool) -> (r: Result<
    Vec<String>,
    DepError,
>)
    ensures
        match (r, iqtree_status_spec(opt_view(*iqtree_stdout))) {
            (Ok(lines), Ok(iq)) => views(lines@) == seq![
                "\x1b[33m"@ + "Dependencies"@ + RESET@,
                iq,
                field_line(if astral_found { "[OK]"@ } else { "[NOT FOUND]"@ }, "ASTRAL"@),
            ],
            (Err(a), Err(b)) => a == b,
            _ => false,
        },
{
    let iq = match iqtree_status(iqtree_stdout) {
        Ok(line) => line,
        Err(e) => {
            return Err(e);
        },
    };
    let mut lines: Vec<String> = Vec::new();
    lines.push(yellow("Dependencies"));
    lines.push(iq);
    lines.push(astral_status(astral_found));
    proof {
        let iqs = iqtree_status_spec(opt_view(*iqtree_stdout))->Ok_0;
        assert(views(lines@) =~= seq![
            "\x1b[33m"@ + "Dependencies"@ + RESET@,
            iqs,
            field_line(if astral_found { "[OK]"@ } else { "[NOT FOUND]"@ }, "ASTRAL"@),
        ]);
    }
    Ok(lines)
}

/// The script that starts the coalescence program's jar at `jar`, with the
/// jar's `lib` directory on the library path and every argument passed on.
pub open spec fn astral_script(jar: Seq<char>) -> Seq<char> {
    "#!/bin/bash\n"@ + "java -D\"java.library.path="@ + parent(jar) + "/lib\" -jar "@ + jar
        + " \"$@\"\n"@
}

/// The launcher script for the jar at the absolute path `jar`; `None` for a
/// path with no directory part.
pub fn astral_launcher(jar: &str) -> (r: Option<String>)
    ensures
        r is None <==> rfind(jar@, '/') == -1,
        r matches Some(s) ==> s@ == astral_script(jar@),
{
    match parent_of(jar) {
        Some(dir) => {
            let mut s = String::from_str("#!/bin/bash\n");
            s.append("java -D\"java.library.path=");
            s.append(dir.as_str());
            s.append("/lib\" -jar ");
            s.append(jar);
            s.append(" \"$@\"\n");
            Some(s)
        },
        None => None,
    }
}

} // verus!
