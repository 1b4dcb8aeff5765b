//! The `{$LIBSUFFIX}` directive of the main source of a package or a library.

use vstd::prelude::*;

use crate::files;
use crate::files::Files;
use crate::text;

verus! {

/// What the capture group `group` holds of the first match of `pattern` in
/// `haystack`, in the syntax of the `regex` crate; nothing where there is no
/// match, no such group, no part of the match in it, or no such pattern.
pub uninterp spec fn regex_group(
    pattern: Seq<char>,
    haystack: Seq<char>,
    group: Seq<char>,
) -> Option<Seq<char>>;

/// `regex::Regex::captures`, then `Captures::name`: the text that the group
/// named `group` captured in the leftmost match of `pattern` in `haystack`.
#[verifier::external_body]
fn captured(pattern: &str, haystack: &str, group: &str) -> (res: Option<String>)
    ensures
        text::opt(res) == regex_group(pattern@, haystack@, group@),
{
    regex::Regex::new(pattern).ok()?.captures(haystack)?.name(group).map(
        |found| found.as_str().to_string(),
    )
}

/// `{$LIBSUFFIX '290'}` or `{$LIBSUFFIX AUTO}` in a `.dpk` or `.dpr`.
pub open spec fn directive_pattern() -> Seq<char> {
    "(?i)\\{\\$LIBSUFFIX\\s+(?:'(?P<quoted>[^']*)'|(?P<auto>AUTO))\\s*\\}"@
}

/// The suffix that a directive declares, from what it has in the place of
/// `AUTO` and between quotes.
pub open spec fn suffix_of(auto: Option<Seq<char>>, quoted: Option<Seq<char>>) -> Option<
    Seq<char>,
> {
    match auto {
        Some(_) => Some("AUTO"@),
        None => match quoted {
            Some(suffix) => Some(text::trimmed(suffix)),
            None => None,
        },
    }
}

/// The suffix that a directive declares, from what it has in the place of
/// `AUTO` and between quotes.
pub fn declared_suffix(auto: Option<String>, quoted: Option<String>) -> (res: Option<String>)
    ensures
        text::opt(res) == suffix_of(text::opt(auto), text::opt(quoted)),
{
    match auto {
        Some(_) => Some("AUTO".to_owned()),
        None => match quoted {
            Some(suffix) => Some(text::trim(suffix.as_str())),
            None => None,
        },
    }
}

/// The suffix that a main source declares by a directive.
pub open spec fn source_suffix(source: Seq<char>) -> Option<Seq<char>> {
    suffix_of(
        regex_group(directive_pattern(), source, "auto"@),
        regex_group(directive_pattern(), source, "quoted"@),
    )
}

/// The suffix that the main source at `path` declares, where it can be read.
pub open spec fn directive_suffix(
    files: Map<Seq<char>, files::FileView>,
    path: Seq<char>,
) -> Option<Seq<char>> {
    match files::at(files, path).contents {
        Ok(source) => source_suffix(source),
        Err(_) => None,
    }
}

/// The `LIBSUFFIX` a main source declares itself, when it does.
pub fn lib_suffix_directive(path: &str, files: &Files) -> (res: Option<String>)
    ensures
        text::opt(res) == directive_suffix(files@, path@),
{
    match files.read(path) {
        Ok(source) => {
            let pattern = "(?i)\\{\\$LIBSUFFIX\\s+(?:'(?P<quoted>[^']*)'|(?P<auto>AUTO))\\s*\\}";
            declared_suffix(
                captured(pattern, source.as_str(), "auto"),
                captured(pattern, source.as_str(), "quoted"),
            )
        },
        Err(_) => None,
    }
}

} // verus!
