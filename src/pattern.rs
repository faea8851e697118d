use vstd::prelude::*;

verus! {

#[verifier::external_type_specification]
#[verifier::external_body]
pub struct ExRegex(regex::Regex);

/// The capture groups of the leftmost-first match of regular expression `pattern` in
/// `text`, as the `regex` crate finds it: `None` where there is no match; otherwise
/// group 0 for the whole match and group `i` for the `i`-th parenthesised group,
/// `None` for a group that took no part in the match.
pub uninterp spec fn regex_captures(pattern: Seq<char>, text: Seq<char>) -> Option<Seq<Option<Seq<char>>>>;

/// Whether the `regex` crate compiles `pattern` with its default settings: the pattern
/// is valid and the compiled expression stays within the default size limit.
pub uninterp spec fn regex_compiles(pattern: Seq<char>) -> bool;

/// The views of a list of optional strings.
pub open spec fn group_views(groups: Seq<Option<String>>) -> Seq<Option<Seq<char>>> {
    groups.map_values(|g: Option<String>| match g {
        Some(s) => Some(s@),
        None => None,
    })
}

/// The views of what a capture call returned.
pub open spec fn captures_view(r: Option<Vec<Option<String>>>) -> Option<Seq<Option<Seq<char>>>> {
    match r {
        Some(groups) => Some(group_views(groups@)),
        None => None,
    }
}

/// Group `k` of `captures`, `None` where there is no such group or it took no part.
pub open spec fn group(captures: Seq<Option<Seq<char>>>, k: int) -> Option<Seq<char>> {
    if 0 <= k < captures.len() {
        captures[k]
    } else {
        None
    }
}

/// A compiled regular expression together with its source text.
pub(crate) struct Pattern {
    source: String,
    compiled: regex::Regex,
}

impl Pattern {
    /// The source text that the expression was compiled from.
    pub(crate) closed spec fn source(&self) -> Seq<char> {
        self.source@
    }

    /// Relies on `regex::Regex::new`: an error for a pattern that does not compile,
    /// which depends on the pattern alone, otherwise the expression of `source`.
    #[verifier::external_body]
    pub(crate) fn compile(source: &str) -> (r: Option<Pattern>)
        ensures
            r is Some <==> regex_compiles(source@),
            r matches Some(p) ==> p.source() == source@,
    {
        match regex::Regex::new(source) {
            Ok(compiled) => Some(Pattern { source: source.to_string(), compiled }),
            Err(_) => None,
        }
    }

    /// Relies on `regex::Regex::captures` and `Captures::iter`: the groups of the first
    /// match of the expression in `text`, in order.
    #[verifier::external_body]
    pub(crate) fn captures(&self, text: &str) -> (r: Option<Vec<Option<String>>>)
        ensures
            captures_view(r) == regex_captures(self.source(), text@),
    {
        self.compiled.captures(text).map(|caps| caps.iter().map(|m| m.map(|m| m.as_str().to_string())).collect())
    }
}

} // verus!
