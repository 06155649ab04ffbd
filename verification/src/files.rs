//! The predicate the directory walker consults: which files are handed to
//! the planning pipeline and which are left alone.
//!
//! Hidden files, files without an extension, and files with an exempt
//! extension (sample and proof artifacts, checksums, archives, text
//! metadata, and the numbered parts of split archives) are skipped.

use vstd::prelude::*;

use crate::interface::is_digit;

verus! {

/// Whether the fixed numbered-part pattern — 'r' followed by one or more
/// decimal digits — matches somewhere in `s`. A function of the characters
/// alone; the regular-expression engine computes it.
pub uninterp spec fn numbered_ext_match(s: Seq<char>) -> bool;

/// Relies on regex::Regex::new and regex::Regex::is_match: `is_match`
/// reports whether the pattern matches anywhere in the haystack. The
/// pattern is the literal 'r' followed by one or more decimal digits, so a
/// haystack with 'r' directly before an ASCII digit matches, and one
/// without any 'r' cannot match.
#[verifier::external_body]
fn is_numbered_extension(s: &str) -> (r: bool)
    ensures
        r == numbered_ext_match(s@),
        (exists|i: int|
            0 <= i && i + 1 < s@.len() && #[trigger] s@[i] == 'r' && is_digit(s@[i + 1])) ==> r,
        (forall|i: int| 0 <= i < s@.len() ==> #[trigger] s@[i] != 'r') ==> !r,
{
    let re = regex::Regex::new(r"r\d+").unwrap();
    re.is_match(s)
}

/// Extensions the walker must leave alone.
pub open spec fn exempt_extension(e: Seq<char>) -> bool {
    ||| e == "gif"@
    ||| e == "jpg"@
    ||| e == "md"@
    ||| e == "nfo"@
    ||| e == "png"@
    ||| e == "py"@
    ||| e == "rar"@
    ||| e == "sfv"@
    ||| e == "srr"@
    ||| e == "txt"@
    ||| numbered_ext_match(e)
}

/// Whether the walker hands a directory entry to the pipeline: the file
/// must be visible (its name not starting with '.'), have an extension,
/// and the extension must not be exempt.
pub open spec fn should_process_spec(filename: Seq<char>, extension: Option<Seq<char>>) -> bool {
    &&& filename[0] != '.'
    &&& match extension {
        Some(e) => !exempt_extension(e),
        None => false,
    }
}

/// Decides whether a directory entry is handed to the pipeline, from its
/// file name and its extension (`None` when it has none).
pub fn should_process(filename: &str, extension: Option<&str>) -> (b: bool)
    requires
        filename@.len() > 0,
    ensures
        b == should_process_spec(
            filename@,
            match extension {
                Some(e) => Some(e@),
                None => None,
            },
        ),
{
    let first = filename.get_char(0);
    if first == '.' {
        return false;
    }
    match extension {
        None => false,
        Some(e) => {
            let ex: String = e.to_owned();
            let exempt = ex == "gif".to_owned() || ex == "jpg".to_owned() || ex == "md".to_owned()
                || ex == "nfo".to_owned() || ex == "png".to_owned() || ex == "py".to_owned() || ex
                == "rar".to_owned() || ex == "sfv".to_owned() || ex == "srr".to_owned() || ex
                == "txt".to_owned() || is_numbered_extension(e);
            !exempt
        },
    }
}

} // verus!
