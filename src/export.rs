//! Export of the run's log lines to a plain-text file in the output folder.

use vstd::prelude::*;
use vstd::string::StringExecFns;
use crate::text::{concat, digits_of, trim_of, trimmed};

verus! {

/// Relies on `ToString` for `u64` (its `Display`): its decimal digits.
#[verifier::external_body]
fn u64_text(x: u64) -> (r: String)
    ensures
        r@ == digits_of(x as nat),
{
    x.to_string()
}

/// The lines joined by newlines, none after the last.
pub open spec fn joined_lines(lines: Seq<Seq<char>>) -> Seq<char>
    decreases lines.len(),
{
    if lines.len() == 0 {
        Seq::empty()
    } else if lines.len() == 1 {
        lines[0]
    } else {
        joined_lines(lines.drop_last()) + "\n"@ + lines.last()
    }
}

pub open spec fn export_name_of(epoch_seconds: u64) -> Seq<char> {
    "church-transcriber-log-"@ + digits_of(epoch_seconds as nat) + ".txt"@
}

/// The folder to export into: the trimmed output folder, which must not be empty.
pub fn export_folder(output_folder: &str) -> (r: Result<String, String>)
    ensures
        trim_of(output_folder@).len() > 0 ==> r == Ok::<String, String>(r->Ok_0) && r->Ok_0@ == trim_of(
            output_folder@,
        ),
        trim_of(output_folder@).len() == 0 ==> r is Err && r->Err_0@ == "Output folder is required for log export."@,
{
    let t = trimmed(output_folder);
    if t.unicode_len() == 0 {
        Err(String::from_str("Output folder is required for log export."))
    } else {
        Ok(t)
    }
}

/// File name of an export made at `epoch_seconds`.
pub fn export_file_name(epoch_seconds: u64) -> (r: String)
    ensures
        r@ == export_name_of(epoch_seconds),
{
    let d = u64_text(epoch_seconds);
    let a = concat("church-transcriber-log-", d.as_str());
    concat(a.as_str(), ".txt")
}

/// The body of an export: one line per entry, joined by newlines.
pub fn export_body(lines: &Vec<String>) -> (r: String)
    ensures
        r@ == joined_lines(lines@.map_values(|s: String| s@)),
{
    let ghost ls = lines@.map_values(|s: String| s@);
    let mut body = String::from_str("");
    proof {
        reveal_strlit("");
    }
    assert(ls.subrange(0, 0) =~= Seq::empty());
    let mut i: usize = 0;
    while i < lines.len()
        invariant
            ls == lines@.map_values(|s: String| s@),
            0 <= i <= lines@.len(),
            body@ == joined_lines(ls.subrange(0, i as int)),
        decreases lines@.len() - i,
    {
        assert(ls.subrange(0, (i + 1) as int).drop_last() =~= ls.subrange(0, i as int));
        if i > 0 {
            body.append("\n");
        }
        body.append(lines[i].as_str());
        assert(body@ =~= joined_lines(ls.subrange(0, (i + 1) as int)));
        i = i + 1;
    }
    assert(ls.subrange(0, lines@.len() as int) =~= ls);
    body
}

} // verus!
