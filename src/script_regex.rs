use vstd::prelude::*;

verus! {

#[verifier::external_type_specification]
#[verifier::external_body]
pub struct ExRegex(regex::Regex);

/// Whether `pattern` compiles under the regex crate's default options.
pub uninterp spec fn regex_compiles(pattern: Seq<char>) -> bool;

/// The text of the error the regex crate reports for `pattern`.
pub uninterp spec fn regex_error_text(pattern: Seq<char>) -> Seq<char>;

/// The leftmost-first match of `pattern` in `text`, if there is one.
pub uninterp spec fn regex_first_match(pattern: Seq<char>, text: Seq<char>) -> Option<Seq<char>>;

/// The capture groups of the leftmost-first match of `pattern` in `text`:
/// the whole match, then each group by the order of its opening `(`.
pub uninterp spec fn regex_groups(pattern: Seq<char>, text: Seq<char>) -> Option<
    Seq<Option<Seq<char>>>,
>;

/// A compiled regular expression offered to rule scripts, together with
/// the pattern it was compiled from.
pub struct LuaRegex {
    re: regex::Regex,
    pattern: String,
}

impl View for LuaRegex {
    type V = Seq<char>;

    /// The pattern the expression was compiled from.
    closed spec fn view(&self) -> Seq<char> {
        self.pattern@
    }
}

/// The views of a list of optional strings.
pub open spec fn groups_view(v: Seq<Option<String>>) -> Seq<Option<Seq<char>>> {
    v.map_values(
        |o: Option<String>|
            match o {
                Some(s) => Some(s@),
                None => None,
            },
    )
}

/// Relies on regex::Regex::new (with the error's Display text): it fails
/// exactly on patterns it does not accept. The value built keeps the
/// pattern it was compiled from.
#[verifier::external_body]
fn regex_new(pattern: &str) -> (r: Result<LuaRegex, String>)
    ensures
        r is Ok <==> regex_compiles(pattern@),
        r is Ok ==> r->Ok_0@ == pattern@,
        r is Err ==> r->Err_0@ == regex_error_text(pattern@),
{
    match regex::Regex::new(pattern) {
        Ok(re) => Ok(LuaRegex { re, pattern: pattern.to_string() }),
        Err(e) => Err(e.to_string()),
    }
}

/// Relies on regex::Regex::is_match: true if and only if the expression
/// matches somewhere in `text`, that is when `find` has a match.
#[verifier::external_body]
fn regex_is_match(r: &LuaRegex, text: &str) -> (b: bool)
    ensures
        b == regex_first_match(r@, text@) is Some,
{
    r.re.is_match(text)
}

/// Relies on regex::Regex::find: the text of the leftmost-first match.
#[verifier::external_body]
fn regex_find(r: &LuaRegex, text: &str) -> (m: Option<String>)
    ensures
        match m {
            Some(s) => regex_first_match(r@, text@) == Some(s@),
            None => regex_first_match(r@, text@) is None,
        },
{
    r.re.find(text).map(|m| m.as_str().to_string())
}

/// Relies on regex::Regex::captures: the groups of the leftmost-first
/// match, the whole match being group zero.
#[verifier::external_body]
fn regex_captures(r: &LuaRegex, text: &str) -> (c: Option<Vec<Option<String>>>)
    ensures
        match c {
            Some(v) => regex_groups(r@, text@) == Some(groups_view(v@)) && v@.len() >= 1
                && groups_view(v@)[0] == regex_first_match(r@, text@) && regex_first_match(
                r@,
                text@,
            ) is Some,
            None => regex_groups(r@, text@) is None && regex_first_match(r@, text@) is None,
        },
{
    r.re.captures(text).map(|caps| caps.iter().map(|g| g.map(|m| m.as_str().to_string())).collect())
}

impl LuaRegex {
    /// Compiles `pattern`; a pattern the regex engine rejects gives its
    /// diagnostic.
    pub fn compile(pattern: &str) -> (r: Result<LuaRegex, String>)
        ensures
            r is Ok <==> regex_compiles(pattern@),
            r is Ok ==> r->Ok_0@ == pattern@,
            r is Err ==> r->Err_0@ == regex_error_text(pattern@),
    {
        regex_new(pattern)
    }

    /// Whether the expression matches anywhere in `text`.
    pub fn is_match(&self, text: &str) -> (b: bool)
        ensures
            b == regex_first_match(self@, text@) is Some,
    {
        regex_is_match(self, text)
    }

    /// The first match in `text`, if any.
    pub fn find(&self, text: &str) -> (m: Option<String>)
        ensures
            match m {
                Some(s) => regex_first_match(self@, text@) == Some(s@),
                None => regex_first_match(self@, text@) is None,
            },
    {
        regex_find(self, text)
    }

    /// The capture groups of the first match in `text`, if any. Group zero
    /// is the whole match, and equals what `find` returns.
    pub fn captures(&self, text: &str) -> (c: Option<Vec<Option<String>>>)
        ensures
            match c {
                Some(v) => regex_groups(self@, text@) == Some(groups_view(v@)) && v@.len() >= 1
                    && groups_view(v@)[0] == regex_first_match(self@, text@),
                None => regex_first_match(self@, text@) is None,
            },
    {
        regex_captures(self, text)
    }
}

} // verus!
