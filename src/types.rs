//! Validated configuration values: each one can only be built by a parser
//! that checks its invariant.

use vstd::prelude::*;
use vstd::string::*;
use crate::text::{has_prefix, starts_with, to_upper, trim_of, trim_text, upper_of};

verus! {

/// The text `SELECT`.
pub open spec fn select_keyword() -> Seq<char> {
    seq!['S', 'E', 'L', 'E', 'C', 'T']
}

/// A query text, once trimmed and uppercased, is a read query.
pub open spec fn is_select_text(normalized: Seq<char>) -> bool {
    starts_with(normalized, select_keyword())
}

/// The trimmed, uppercased form of a query text.
pub open spec fn normalized_query(q: Seq<char>) -> Seq<char> {
    upper_of(trim_of(q))
}

/// A query text is accepted: it is non-empty and its trimmed, uppercased
/// form starts with `SELECT`.
pub open spec fn query_accepted(q: Seq<char>) -> bool {
    q.len() > 0 && is_select_text(normalized_query(q))
}

/// The message for a query whose normalized form is `normalized`.
pub open spec fn query_error(normalized: Seq<char>) -> Seq<char> {
    if normalized.len() == 0 {
        "query cannot be empty"@
    } else {
        "only SELECT queries are allowed"@
    }
}

/// What `Path::extension` gives for a path: the text after the last `.`
/// of its final component, a leading dot not counting.
pub uninterp spec fn extension_of(p: Seq<char>) -> Option<Seq<char>>;

/// What `Path::file_stem` gives for a path: its final component without
/// the extension.
pub uninterp spec fn stem_of(p: Seq<char>) -> Option<Seq<char>>;

/// Relies on `std::path::Path::extension`, a function of the text alone.
#[verifier::external_body]
pub(crate) fn path_extension(p: &str) -> (r: Option<String>)
    ensures
        match r {
            Some(e) => extension_of(p@) == Some(e@),
            None => extension_of(p@) is None,
        },
{
    match std::path::Path::new(p).extension() {
        Some(e) => Some(e.to_string_lossy().into_owned()),
        None => None,
    }
}

/// Relies on `std::path::Path::file_stem`, a function of the text alone.
#[verifier::external_body]
pub(crate) fn path_stem(p: &str) -> (r: Option<String>)
    ensures
        match r {
            Some(e) => stem_of(p@) == Some(e@),
            None => stem_of(p@) is None,
        },
{
    match std::path::Path::new(p).file_stem() {
        Some(e) => Some(e.to_string_lossy().into_owned()),
        None => None,
    }
}

/// A template path is accepted: non-empty, with the extension exactly
/// `hbs` (case-sensitive).
pub open spec fn template_path_accepted(p: Seq<char>) -> bool {
    p.len() > 0 && extension_of(p) == Some("hbs"@)
}

/// A variable reference: the sigil `$` followed by a non-empty name.
pub open spec fn is_variable_ref(v: Seq<char>) -> bool {
    v.len() >= 2 && v[0] == '$'
}

/// A named parameter marker: starts with `:`.
pub open spec fn is_param_marker(n: Seq<char>) -> bool {
    n.len() >= 1 && n[0] == ':'
}

/// A validated store location: a non-empty path.
#[derive(Debug, Clone)]
pub struct DatabasePath(String);

impl View for DatabasePath {
    type V = Seq<char>;

    closed spec fn view(&self) -> Seq<char> {
        self.0@
    }
}

impl DatabasePath {
    pub closed spec fn wf(&self) -> bool {
        self@.len() > 0
    }

    /// Accepts any non-empty path.
    pub fn parse(path: &str) -> (r: Result<DatabasePath, String>)
        ensures
            r is Ok <==> path@.len() > 0,
            r matches Ok(d) ==> d@ == path@ && d.wf(),
            r matches Err(e) ==> e@ == "database path cannot be empty"@,
    {
        if path.unicode_len() == 0 {
            return Err(String::from_str("database path cannot be empty"));
        }
        Ok(DatabasePath(String::from_str(path)))
    }

    pub fn as_str(&self) -> (r: &str)
        ensures
            r@ == self@,
    {
        self.0.as_str()
    }
}

/// A validated read query; the text keeps its original casing.
#[derive(Debug, Clone)]
pub struct SqlQuery(String);

impl View for SqlQuery {
    type V = Seq<char>;

    closed spec fn view(&self) -> Seq<char> {
        self.0@
    }
}

/// Checks the trimmed, uppercased form of a query text.
pub fn check_normalized_query(normalized: &str) -> (r: Result<(), String>)
    ensures
        r is Ok <==> is_select_text(normalized@),
        r matches Err(e) ==> e@ == query_error(normalized@),
{
    if normalized.unicode_len() == 0 {
        return Err(String::from_str("query cannot be empty"));
    }
    proof {
        reveal_strlit("SELECT");
    }
    assert("SELECT"@ =~= select_keyword());
    if !has_prefix(normalized, "SELECT") {
        return Err(String::from_str("only SELECT queries are allowed"));
    }
    Ok(())
}

impl SqlQuery {
    pub closed spec fn wf(&self) -> bool {
        query_accepted(self@)
    }

    /// Accepts a query whose trimmed, uppercased form starts with `SELECT`.
    pub fn parse(query: &str) -> (r: Result<SqlQuery, String>)
        ensures
            r is Ok <==> query_accepted(query@),
            r is Ok <==> is_select_text(normalized_query(query@)),
            r matches Ok(q) ==> q@ == query@ && q.wf(),
            r matches Err(e) ==> e@ == query_error(normalized_query(query@)),
            r matches Err(e) ==> e@ == if trim_of(query@).len() == 0 {
                "query cannot be empty"@
            } else {
                "only SELECT queries are allowed"@
            },
    {
        let trimmed = trim_text(query);
        let upper = to_upper(trimmed);
        match check_normalized_query(upper.as_str()) {
            Ok(()) => {
                assert(query@.len() > 0);
                Ok(SqlQuery(String::from_str(query)))
            },
            Err(e) => Err(e),
        }
    }

    pub fn as_str(&self) -> (r: &str)
        ensures
            r@ == self@,
    {
        self.0.as_str()
    }
}

/// A validated template file reference.
#[derive(Debug, Clone)]
pub struct TemplatePath(String);

impl View for TemplatePath {
    type V = Seq<char>;

    closed spec fn view(&self) -> Seq<char> {
        self.0@
    }
}

impl TemplatePath {
    pub closed spec fn wf(&self) -> bool {
        template_path_accepted(self@)
    }

    /// Accepts a non-empty path whose extension is exactly `hbs`.
    pub fn parse(path: &str) -> (r: Result<TemplatePath, String>)
        ensures
            r is Ok <==> template_path_accepted(path@),
            r matches Ok(t) ==> t@ == path@ && t.wf(),
            r matches Err(e) ==> e@ == (if path@.len() == 0 {
                "template path cannot be empty"@
            } else {
                "template must be a .hbs file"@
            }),
    {
        if path.unicode_len() == 0 {
            return Err(String::from_str("template path cannot be empty"));
        }
        let ok = match path_extension(path) {
            Some(e) => e == String::from_str("hbs"),
            None => false,
        };
        if !ok {
            return Err(String::from_str("template must be a .hbs file"));
        }
        Ok(TemplatePath(String::from_str(path)))
    }

    pub fn as_str(&self) -> (r: &str)
        ensures
            r@ == self@,
    {
        self.0.as_str()
    }
}

/// A variable reference resolved at request time: `$` and a non-empty name.
#[derive(Debug, Clone)]
pub struct NginxVariable(String);

impl View for NginxVariable {
    type V = Seq<char>;

    closed spec fn view(&self) -> Seq<char> {
        self.0@
    }
}

impl NginxVariable {
    pub closed spec fn wf(&self) -> bool {
        is_variable_ref(self@)
    }

    /// Accepts `$` followed by at least one character.
    pub fn parse(name: &str) -> (r: Result<NginxVariable, String>)
        ensures
            r is Ok <==> is_variable_ref(name@),
            r matches Ok(v) ==> v@ == name@ && v.wf(),
            r matches Err(e) ==> e@ == (if name@.len() == 0 {
                "variable name cannot be empty"@
            } else if name@[0] != '$' {
                "variable name must start with $: "@ + name@
            } else {
                "variable name after $ cannot be empty"@
            }),
    {
        let n = name.unicode_len();
        if n == 0 {
            return Err(String::from_str("variable name cannot be empty"));
        }
        if name.get_char(0) != '$' {
            let mut e = String::from_str("variable name must start with $: ");
            e.append(name);
            return Err(e);
        }
        if n == 1 {
            return Err(String::from_str("variable name after $ cannot be empty"));
        }
        Ok(NginxVariable(String::from_str(name)))
    }

    pub fn as_str(&self) -> (r: &str)
        ensures
            r@ == self@,
    {
        self.0.as_str()
    }

    /// The name after the sigil.
    pub fn name(&self) -> (r: &str)
        requires
            self.wf(),
        ensures
            r@ == self@.subrange(1, self@.len() as int),
    {
        let s = self.0.as_str();
        s.substring_char(1, s.unicode_len())
    }
}

/// A query parameter marker: empty for a positional slot, or starting with `:`.
#[derive(Debug, Clone)]
pub struct ParamName(String);

impl View for ParamName {
    type V = Seq<char>;

    closed spec fn view(&self) -> Seq<char> {
        self.0@
    }
}

impl ParamName {
    pub closed spec fn wf(&self) -> bool {
        self@.len() == 0 || is_param_marker(self@)
    }

    /// Accepts a marker that starts with `:`.
    pub fn parse(name: &str) -> (r: Result<ParamName, String>)
        ensures
            r is Ok <==> is_param_marker(name@),
            r matches Ok(p) ==> p@ == name@ && p.wf(),
            r matches Err(e) ==> e@ == (if name@.len() == 0 {
                "parameter name cannot be empty"@
            } else {
                "parameter name must start with :: "@ + name@
            }),
    {
        if name.unicode_len() == 0 {
            return Err(String::from_str("parameter name cannot be empty"));
        }
        if name.get_char(0) != ':' {
            let mut e = String::from_str("parameter name must start with :: ");
            e.append(name);
            return Err(e);
        }
        Ok(ParamName(String::from_str(name)))
    }

    /// The empty marker of a positional slot.
    pub fn positional() -> (r: ParamName)
        ensures
            r@.len() == 0,
            r.wf(),
    {
        ParamName(String::new())
    }

    pub fn is_positional(&self) -> (r: bool)
        ensures
            r == (self@.len() == 0),
    {
        self.0.as_str().unicode_len() == 0
    }

    pub fn as_str(&self) -> (r: &str)
        ensures
            r@ == self@,
    {
        self.0.as_str()
    }
}

/// One query parameter slot: positional or named, filled from a variable or
/// from a literal.
#[derive(Debug, Clone)]
pub enum ParameterBinding {
    Positional { variable: NginxVariable },
    PositionalLiteral { value: String },
    Named { name: ParamName, variable: NginxVariable },
    NamedLiteral { name: ParamName, value: String },
}

impl ParameterBinding {
    /// Named variants carry a `:` marker, variables a `$` reference.
    pub open spec fn wf(&self) -> bool {
        match self {
            ParameterBinding::Positional { variable } => variable.wf(),
            ParameterBinding::PositionalLiteral { .. } => true,
            ParameterBinding::Named { name, variable } => is_param_marker(name@) && variable.wf(),
            ParameterBinding::NamedLiteral { name, .. } => is_param_marker(name@),
        }
    }

    /// The marker the slot is submitted under: empty when positional.
    pub open spec fn marker(&self) -> Seq<char> {
        match self {
            ParameterBinding::Positional { .. } => Seq::empty(),
            ParameterBinding::PositionalLiteral { .. } => Seq::empty(),
            ParameterBinding::Named { name, .. } => name@,
            ParameterBinding::NamedLiteral { name, .. } => name@,
        }
    }

    /// The slot is named.
    pub open spec fn is_named(&self) -> bool {
        self is Named || self is NamedLiteral
    }

    /// The slot takes its value from a literal.
    pub open spec fn is_literal(&self) -> bool {
        self is PositionalLiteral || self is NamedLiteral
    }

    /// The configured literal value of a literal slot.
    pub open spec fn literal(&self) -> Seq<char> {
        match self {
            ParameterBinding::PositionalLiteral { value } => value@,
            ParameterBinding::NamedLiteral { value, .. } => value@,
            _ => Seq::empty(),
        }
    }

    /// The variable reference of a variable slot.
    pub open spec fn variable_ref(&self) -> Seq<char> {
        match self {
            ParameterBinding::Positional { variable } => variable@,
            ParameterBinding::Named { variable, .. } => variable@,
            _ => Seq::empty(),
        }
    }
}

} // verus!
