//! What `flow doctor` reports of the tools and tokens it looks for.
use vstd::prelude::*;

use crate::text::{chars_of, lines, split_lines, string_of, trim, trim_vec, views};

verus! {

/// A tool's version as reported: its `--version` output trimmed, or
/// `not found` when the tool could not be run.
pub fn tool_version(stdout: Option<&str>) -> (r: String)
    ensures
        match stdout {
            Some(s) => r@ == trim(s@),
            None => r@ == "not found"@,
        },
{
    match stdout {
        Some(s) => string_of(&trim_vec(&chars_of(s))),
        None => "not found".to_owned(),
    }
}

/// A tool's version as reported from the first line of its output only
/// (`?` when the output is empty), or `not found` when it could not be run.
pub fn first_line_version(stdout: Option<&str>) -> (r: String)
    ensures
        match stdout {
            Some(s) => if lines(s@).len() > 0 {
                r@ == lines(s@)[0]
            } else {
                r@ == "?"@
            },
            None => r@ == "not found"@,
        },
{
    match stdout {
        Some(s) => {
            let ls = split_lines(&chars_of(s));
            if ls.len() > 0 {
                assert(views(ls@)[0] == ls@[0]@);
                string_of(&ls[0])
            } else {
                "?".to_owned()
            }
        },
        None => "not found".to_owned(),
    }
}

/// How a token's presence in the keychain is reported.
pub fn presence(found: bool) -> (r: &'static str)
    ensures
        r@ == (if found { "present"@ } else { "missing"@ }),
{
    if found {
        "present"
    } else {
        "missing"
    }
}

} // verus!
