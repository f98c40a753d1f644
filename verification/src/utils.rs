use vstd::prelude::*;

use crate::bytes::str_eq;

verus! {

/// Accept an input argument: a path that names an existing file, or `-` for
/// the standard input. The caller supplies whether the path
/// exists; the decision is made here.
pub fn parse_file(input: &str, input_exists: bool) -> (r: Result<String, String>)
    ensures
        input_exists || input@ == "-"@ ==> (r matches Ok(s) && s@ == input@),
        !input_exists && input@ != "-"@ ==> (r matches Err(e) && e@ == "File does not exist"@),
{
    if input_exists || str_eq(input, "-") {
        Ok(input.to_owned())
    } else {
        Err("File does not exist".to_owned())
    }
}

/// Accept an output argument: any path that is not a directory, `-` for the
/// standard output among them. The caller supplies whether the path is a
/// directory; the decision is made here.
pub fn parse_out(output: &str, is_dir: bool) -> (r: Result<String, String>)
    ensures
        !is_dir ==> (r matches Ok(s) && s@ == output@),
        is_dir ==> (r matches Err(e) && e@ == "Path is dir"@),
{
    if is_dir {
        Err("Path is dir".to_owned())
    } else {
        Ok(output.to_owned())
    }
}

} // verus!
