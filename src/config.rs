//! Raw per-location and process-wide configuration, as the host collects it
//! from its directives.

use vstd::prelude::*;

verus! {

/// A list of text pairs seen as pairs of character sequences.
pub open spec fn pairs_view(v: Seq<(String, String)>) -> Seq<(Seq<char>, Seq<char>)> {
    v.map_values(|p: (String, String)| (p.0@, p.1@))
}

/// A copy of a list of text pairs.
pub fn copy_pairs(v: &Vec<(String, String)>) -> (r: Vec<(String, String)>)
    ensures
        pairs_view(r@) == pairs_view(v@),
{
    let mut r: Vec<(String, String)> = Vec::new();
    let mut i: usize = 0;
    while i < v.len()
        invariant
            i <= v@.len(),
            r@.len() == i,
            forall|k: int| 0 <= k < i ==> r@[k].0@ == v@[k].0@ && r@[k].1@ == v@[k].1@,
        decreases v@.len() - i,
    {
        r.push((v[i].0.clone(), v[i].1.clone()));
        i += 1;
    }
    assert(pairs_view(r@) =~= pairs_view(v@));
    r
}

/// Location configuration: store path, query, template path and the raw
/// `(parameter name, variable or literal)` pairs, in declaration order.
#[derive(Debug)]
pub struct ModuleConfig {
    pub db_path: String,
    pub query: String,
    pub template_path: String,
    pub query_params: Vec<(String, String)>,
}

/// Process-wide configuration: the shared template directory, empty when unset.
#[derive(Debug)]
pub struct MainConfig {
    pub global_templates_dir: String,
}

/// A configuration level could not be merged with the one above it.
#[derive(Debug, Clone, Copy, PartialEq, Eq)]
pub enum MergeConfigError {
    NoValue,
}

/// A field left empty at this level takes the value of the level above.
pub open spec fn inherit(own: Seq<char>, prev: Seq<char>) -> Seq<char> {
    if own.len() == 0 {
        prev
    } else {
        own
    }
}

impl Default for ModuleConfig {
    fn default() -> (r: ModuleConfig)
        ensures
            r.db_path@.len() == 0,
            r.query@.len() == 0,
            r.template_path@.len() == 0,
            r.query_params@.len() == 0,
    {
        ModuleConfig {
            db_path: String::new(),
            query: String::new(),
            template_path: String::new(),
            query_params: Vec::new(),
        }
    }
}

impl Default for MainConfig {
    fn default() -> (r: MainConfig)
        ensures
            r.global_templates_dir@.len() == 0,
    {
        MainConfig { global_templates_dir: String::new() }
    }
}

impl ModuleConfig {
    /// Fills each empty field from the enclosing level; set fields are kept.
    pub fn merge(&mut self, prev: &ModuleConfig) -> (r: Result<(), MergeConfigError>)
        ensures
            r is Ok,
            final(self).db_path@ == inherit(old(self).db_path@, prev.db_path@),
            final(self).query@ == inherit(old(self).query@, prev.query@),
            final(self).template_path@ == inherit(old(self).template_path@, prev.template_path@),
            pairs_view(final(self).query_params@) == if old(self).query_params@.len() == 0 {
                pairs_view(prev.query_params@)
            } else {
                pairs_view(old(self).query_params@)
            },
    {
        if self.db_path.as_str().unicode_len() == 0 {
            self.db_path = prev.db_path.clone();
        }
        if self.query.as_str().unicode_len() == 0 {
            self.query = prev.query.clone();
        }
        if self.template_path.as_str().unicode_len() == 0 {
            self.template_path = prev.template_path.clone();
        }
        if self.query_params.len() == 0 {
            self.query_params = copy_pairs(&prev.query_params);
        }
        Ok(())
    }
}

impl MainConfig {
    /// Takes the enclosing level's directory when none is set here.
    pub fn merge(&mut self, prev: &MainConfig) -> (r: Result<(), MergeConfigError>)
        ensures
            r is Ok,
            final(self).global_templates_dir@ == inherit(
                old(self).global_templates_dir@,
                prev.global_templates_dir@,
            ),
    {
        if self.global_templates_dir.as_str().unicode_len() == 0 {
            self.global_templates_dir = prev.global_templates_dir.clone();
        }
        Ok(())
    }
}

} // verus!
