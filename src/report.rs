//! The text the pipeline reports: section dividers, execution times and the
//! report of a job whose program failed.
use crate::text::{pad_right, padded, push_char, push_repeated, repeat, two_digits};
use vstd::prelude::*;
use vstd::utf8::encode_utf8;

verus! {

/// The length of `s` in UTF-8 bytes, as `str::len` counts it.
pub open spec fn byte_len(s: Seq<char>) -> nat {
    encode_utf8(s).len()
}

/// The colour that dividers are written in.
pub const DIVIDER_COLOR: &'static str = "\x1b[0;33m";

/// Resets the terminal's colour.
pub const RESET: &'static str = "\x1b[0m";

/// A line of text centred between runs of a symbol, in colour.
pub struct PrettyDivider {
    pub text: String,
    pub sym: char,
    pub len: usize,
    pub text_len: usize,
    pub sym_len: usize,
    pub color: String,
}

/// The length of each run of symbols for a text of `text_len` bytes on a
/// line of `len`: half of what the text leaves, or `len` where it leaves none.
pub open spec fn sym_run(len: nat, text_len: nat) -> nat {
    if len > text_len {
        ((len - text_len) / 2) as nat
    } else {
        len
    }
}

/// The text between its two runs of symbols, with one more symbol where the
/// text's length is odd, ended by a line break.
pub open spec fn symbol_line(text: Seq<char>, sym: char, run: nat, text_len: nat) -> Seq<char> {
    repeat(sym, run) + seq![' '] + text + seq![' '] + repeat(sym, run) + (if text_len % 2 != 0 {
        seq![sym]
    } else {
        Seq::empty()
    }) + seq!['\n']
}

/// A whole divider: the text alone where it is longer than the line,
/// otherwise framed by symbols; coloured, then reset.
pub open spec fn divider(text: Seq<char>, sym: char, len: nat) -> Seq<char> {
    let tl = byte_len(text);
    DIVIDER_COLOR@ + (if tl > len {
        text + seq!['\n']
    } else {
        symbol_line(text, sym, sym_run(len, tl), tl)
    }) + RESET@
}

impl PrettyDivider {
    pub fn new(text: &str, sym: char, len: usize) -> (r: PrettyDivider)
        ensures
            r.text@ == text@,
            r.sym == sym,
            r.len == len,
            r.text_len == 0,
            r.sym_len == 0,
            r.color@ == DIVIDER_COLOR@,
    {
        PrettyDivider {
            text: String::from_str(text),
            sym,
            len,
            text_len: 0,
            sym_len: 0,
            color: String::from_str(DIVIDER_COLOR),
        }
    }

    /// Measures the text and the runs of symbols around it.
    pub fn get_len(&mut self)
        requires
            byte_len(old(self).text@) <= usize::MAX,
        ensures
            final(self).text_len == byte_len(old(self).text@),
            final(self).sym_len == sym_run(old(self).len as nat, byte_len(old(self).text@)),
            final(self).text@ == old(self).text@,
            final(self).sym == old(self).sym,
            final(self).len == old(self).len,
            final(self).color@ == old(self).color@,
    {
        self.text_len = self.text.as_str().len();
        if self.len > self.text_len {
            self.sym_len = (self.len - self.text_len) / 2;
        } else {
            self.sym_len = self.len;
        }
    }

    /// One run of symbols.
    pub fn print_symbols(&self) -> (r: String)
        ensures
            r@ == repeat(self.sym, self.sym_len as nat),
    {
        let mut r = String::new();
        push_repeated(&mut r, self.sym, self.sym_len);
        assert(r@ =~= repeat(self.sym, self.sym_len as nat));
        r
    }

    /// The text framed by runs of symbols.
    pub fn print_with_symbol(&self) -> (r: String)
        ensures
            r@ == symbol_line(self.text@, self.sym, self.sym_len as nat, self.text_len as nat),
    {
        let mut r = self.print_symbols();
        push_char(&mut r, ' ');
        r.append(self.text.as_str());
        push_char(&mut r, ' ');
        push_repeated(&mut r, self.sym, self.sym_len);
        if self.text_len % 2 != 0 {
            push_char(&mut r, self.sym);
        }
        push_char(&mut r, '\n');
        assert(r@ =~= symbol_line(self.text@, self.sym, self.sym_len as nat, self.text_len as nat));
        r
    }

    /// The whole divider, as it is written to the terminal.
    pub fn print_header(&mut self) -> (r: String)
        requires
            byte_len(old(self).text@) <= usize::MAX,
        ensures
            r@ == old(self).color@ + (if byte_len(old(self).text@) > old(self).len {
                old(self).text@ + seq!['\n']
            } else {
                symbol_line(
                    old(self).text@,
                    old(self).sym,
                    sym_run(old(self).len as nat, byte_len(old(self).text@)),
                    byte_len(old(self).text@),
                )
            }) + RESET@,
    {
        self.get_len();
        let mut r = String::from_str(self.color.as_str());
        if self.text_len > self.len {
            r.append(self.text.as_str());
            push_char(&mut r, '\n');
        } else {
            let line = self.print_with_symbol();
            r.append(line.as_str());
        }
        r.append(RESET);
        r
    }
}

/// A divider of `=` around `text` on a line of `len`.
pub fn print_divider(text: &str, len: usize) -> (r: String)
    requires
        byte_len(text@) <= usize::MAX,
    ensures
        r@ == divider(text@, '=', len as nat),
{
    let mut header = PrettyDivider::new(text, '=', len);
    header.print_header()
}

/// Relies on chrono: `NaiveTime::from_hms` builds the time of day, which it
/// accepts for an hour below 24 and a minute and second below 60, and the
/// `%H:%M:%S` format writes each field as two zero-padded digits.
#[verifier::external_body]
fn clock_text(hours: u32, minutes: u32, seconds: u32) -> (r: String)
    requires
        hours < 24,
        minutes < 60,
        seconds < 60,
    ensures
        r@ == two_digits(hours as nat) + seq![':'] + two_digits(minutes as nat) + seq![':']
            + two_digits(seconds as nat),
{
    #[allow(deprecated)]
    let t = chrono::NaiveTime::from_hms(hours, minutes, seconds);
    t.format("%H:%M:%S").to_string()
}

/// `d` seconds as hours, minutes and seconds.
pub open spec fn hms(d: nat) -> Seq<char> {
    two_digits(d / 3600) + seq![':'] + two_digits((d / 60) % 60) + seq![':'] + two_digits(d % 60)
}

/// A duration of less than a day as `HH:MM:SS`.
pub fn parse_duration(duration: u64) -> (r: String)
    requires
        duration < 86400,
    ensures
        r@ == hms(duration as nat),
{
    let sec = (duration % 60) as u32;
    let min = ((duration / 60) % 60) as u32;
    let hours = ((duration / 60) / 60) as u32;
    assert((duration / 60) / 60 == duration / 3600) by (nonlinear_arith);
    assert(duration / 3600 < 24) by (nonlinear_arith)
        requires
            duration < 86400,
    ;
    clock_text(hours, min, sec)
}

/// The line that reports an execution time of less than a day.
pub fn print_formatted_duration(duration: u64) -> (r: String)
    requires
        duration < 86400,
    ensures
        r@ == "Execution time (HH:MM:SS): "@ + hms(duration as nat),
{
    let mut r = String::from_str("Execution time (HH:MM:SS): ");
    let t = parse_duration(duration);
    r.append(t.as_str());
    r
}

/// Relies on ansi_term: `White.on(Red).paint(text)` displays as `text`
/// between the codes for white on red and the reset code.
#[verifier::external_body]
fn white_on_red(text: &str) -> (r: String)
    ensures
        r@ == "\x1b[41;37m"@ + text@ + RESET@,
{
    ansi_term::Colour::White.on(ansi_term::Colour::Red).paint(text).to_string()
}

/// Relies on ansi_term: `Yellow.paint(text)` displays as `text` between the
/// code for yellow and the reset code.
#[verifier::external_body]
pub(crate) fn yellow(text: &str) -> (r: String)
    ensures
        r@ == "\x1b[33m"@ + text@ + RESET@,
{
    ansi_term::Colour::Yellow.paint(text).to_string()
}

/// The first line that reports a failed job.
pub open spec fn failure_headline(path: Seq<char>) -> Seq<char> {
    "\x1b[41;37m"@ + "ERROR"@ + RESET@ + ": IQ-TREE failed to process "@ + path + " (See below)."@
}

/// What is logged for a job on `path`: nothing where its program succeeded;
/// otherwise a line naming the path, then the program's output and errors.
pub fn check_process_success(succeeded: bool, path: &str, stdout: &str, stderr: &str) -> (r: Vec<
    String,
>)
    ensures
        succeeded ==> r@.len() == 0,
        !succeeded ==> crate::text::views(r@) == seq![failure_headline(path@), stdout@, stderr@],
{
    let mut r: Vec<String> = Vec::new();
    if !succeeded {
        let mut head = white_on_red("ERROR");
        head.append(": IQ-TREE failed to process ");
        head.append(path);
        head.append(" (See below).");
        r.push(head);
        r.push(String::from_str(stdout));
        r.push(String::from_str(stderr));
        assert(crate::text::views(r@) =~= seq![failure_headline(path@), stdout@, stderr@]);
    }
    r
}

/// A label padded to the report's column, then the value.
pub open spec fn field_line(label: Seq<char>, value: Seq<char>) -> Seq<char> {
    pad_right(label, 18) + ": "@ + value
}

/// `label: value`, with the label padded to eighteen characters.
pub fn field(label: &str, value: &str) -> (r: String)
    ensures
        r@ == field_line(label@, value@),
{
    let mut r = padded(label, 18);
    r.append(": ");
    r.append(value);
    r
}

} // verus!
