//! The template registry of one request: names bound to template sources,
//! the latest registration of a name winning.

use vstd::prelude::*;
use vstd::string::*;
use crate::types::{extension_of, path_stem, stem_of, TemplatePath};

verus! {

/// The name a template file is registered under: its file stem, when its
/// extension is `hbs`; none for a file of another kind.
pub open spec fn template_name_of(file_name: Seq<char>) -> Option<Seq<char>> {
    if file_name.len() > 0 && extension_of(file_name) == Some("hbs"@) {
        stem_of(file_name)
    } else {
        None
    }
}

/// The registry a sequence of registrations builds, later ones overriding
/// earlier ones of the same name.
pub open spec fn registered(s: Seq<(String, String)>) -> Map<Seq<char>, Seq<char>>
    decreases s.len(),
{
    if s.len() == 0 {
        Map::empty()
    } else {
        registered(s.drop_last()).insert(s.last().0@, s.last().1@)
    }
}

proof fn lemma_latest_entry(s: Seq<(String, String)>, k: Seq<char>, i: int)
    requires
        0 <= i < s.len(),
        s[i].0@ == k,
        forall|j: int| i < j < s.len() ==> (#[trigger] s[j]).0@ != k,
    ensures
        registered(s).contains_key(k),
        registered(s)[k] == s[i].1@,
    decreases s.len(),
{
    if i < s.len() - 1 {
        let t = s.drop_last();
        assert forall|j: int| i < j < t.len() implies (#[trigger] t[j]).0@ != k by {
            assert(t[j] == s[j]);
        }
        lemma_latest_entry(t, k, i);
    }
}

proof fn lemma_absent(s: Seq<(String, String)>, k: Seq<char>)
    requires
        forall|j: int| 0 <= j < s.len() ==> (#[trigger] s[j]).0@ != k,
    ensures
        !registered(s).contains_key(k),
    decreases s.len(),
{
    if s.len() > 0 {
        let t = s.drop_last();
        assert forall|j: int| 0 <= j < t.len() implies (#[trigger] t[j]).0@ != k by {
            assert(t[j] == s[j]);
        }
        lemma_absent(t, k);
    }
}

/// The name a template file is registered under, if it is a template file.
pub fn template_name_for_file(file_name: &str) -> (r: Option<String>)
    ensures
        match r {
            Some(n) => template_name_of(file_name@) == Some(n@),
            None => template_name_of(file_name@) is None,
        },
{
    match TemplatePath::parse(file_name) {
        Ok(_) => path_stem(file_name),
        Err(_) => None,
    }
}

/// Template sources by name.
pub struct TemplateSet {
    entries: Vec<(String, String)>,
}

impl View for TemplateSet {
    type V = Map<Seq<char>, Seq<char>>;

    closed spec fn view(&self) -> Map<Seq<char>, Seq<char>> {
        registered(self.entries@)
    }
}

impl TemplateSet {
    /// An empty registry.
    pub fn new() -> (r: TemplateSet)
        ensures
            r@ == Map::<Seq<char>, Seq<char>>::empty(),
    {
        TemplateSet { entries: Vec::new() }
    }

    /// Binds `name` to `source`, replacing an earlier binding of the name.
    pub fn register(&mut self, name: &str, source: &str)
        ensures
            final(self)@ == old(self)@.insert(name@, source@),
    {
        self.entries.push((String::from_str(name), String::from_str(source)));
        assert(self.entries@.drop_last() =~= old(self).entries@);
    }

    /// The source bound to `name`.
    pub fn get(&self, name: &str) -> (r: Option<&String>)
        ensures
            match r {
                Some(s) => self@.contains_key(name@) && s@ == self@[name@],
                None => !self@.contains_key(name@),
            },
    {
        let key = String::from_str(name);
        let mut i: usize = self.entries.len();
        while i > 0
            invariant
                i <= self.entries@.len(),
                key@ == name@,
                forall|j: int| i <= j < self.entries@.len() ==> (#[trigger] self.entries@[j]).0@
                    != name@,
            decreases i,
        {
            i -= 1;
            if self.entries[i].0 == key {
                proof {
                    lemma_latest_entry(self.entries@, name@, i as int);
                }
                return Some(&self.entries[i].1);
            }
        }
        proof {
            lemma_absent(self.entries@, name@);
        }
        None
    }
}

/// Registering a name twice serves the second source: the earlier
/// registration leaves no trace.
pub proof fn law_last_registration_wins(
    m: Map<Seq<char>, Seq<char>>,
    name: Seq<char>,
    first: Seq<char>,
    second: Seq<char>,
)
    ensures
        m.insert(name, first).insert(name, second) == m.insert(name, second),
        m.insert(name, first).insert(name, second)[name] == second,
{
    assert(m.insert(name, first).insert(name, second) =~= m.insert(name, second));
}

/// Handlebars' template registry, held opaque.
#[verifier::external_type_specification]
#[verifier::external_body]
pub struct ExHandlebars<'reg>(handlebars::Handlebars<'reg>);

/// The names a handlebars registry holds templates under.
pub uninterp spec fn handlebars_names(r: handlebars::Handlebars<'static>) -> Set<Seq<char>>;

/// Relies on `Handlebars::new`: a registry that holds no template.
#[verifier::external_body]
fn new_registry() -> (r: handlebars::Handlebars<'static>)
    ensures
        handlebars_names(r) == Set::<Seq<char>>::empty(),
{
    handlebars::Handlebars::new()
}

/// Relies on `Handlebars::register_template_string`: the source is parsed
/// and, when that succeeds, bound to the name, replacing an earlier
/// template of that name; on a parse error the registry is left as it was.
#[verifier::external_body]
fn compile_into(reg: &mut handlebars::Handlebars<'static>, name: &str, source: &str) -> (r: Result<
    (),
    String,
>)
    ensures
        r is Ok ==> handlebars_names(*final(reg)) == handlebars_names(*old(reg)).insert(name@),
        r is Err ==> handlebars_names(*final(reg)) == handlebars_names(*old(reg)),
{
    reg.register_template_string(name, source).map_err(|e| e.to_string())
}

/// Relies on `Handlebars::has_template`: whether a template is registered
/// under the name.
#[verifier::external_body]
fn registry_has(reg: &handlebars::Handlebars<'static>, name: &str) -> (r: bool)
    ensures
        r == handlebars_names(*reg).contains(name@),
{
    reg.has_template(name)
}

/// The registry after registering a directory's `(file name, source)`
/// entries in order, where `ok[i]` tells whether entry `i` was registered:
/// only template files can be, each under its name.
pub open spec fn load_outcomes(
    m: Map<Seq<char>, Seq<char>>,
    files: Seq<(String, String)>,
    ok: Seq<bool>,
) -> Map<Seq<char>, Seq<char>>
    decreases files.len(),
{
    if files.len() == 0 || ok.len() != files.len() {
        m
    } else {
        let before = load_outcomes(m, files.drop_last(), ok.drop_last());
        match template_name_of(files.last().0@) {
            Some(name) => if ok.last() {
                before.insert(name, files.last().1@)
            } else {
                before
            },
            None => before,
        }
    }
}

/// How many entries were registered.
pub open spec fn registered_count(ok: Seq<bool>) -> nat
    decreases ok.len(),
{
    if ok.len() == 0 {
        0
    } else {
        registered_count(ok.drop_last()) + if ok.last() {
            1nat
        } else {
            0nat
        }
    }
}

/// The outcomes fit the entries: only a template file can be registered.
pub open spec fn outcomes_fit(files: Seq<(String, String)>, ok: Seq<bool>) -> bool {
    &&& ok.len() == files.len()
    &&& forall|i: int| 0 <= i < ok.len() && #[trigger] ok[i] ==> template_name_of(files[i].0@) is Some
}

/// A handlebars registry together with the sources it was given.
pub struct HandlebarsAdapter {
    templates: TemplateSet,
    registry: handlebars::Handlebars<'static>,
}

impl View for HandlebarsAdapter {
    type V = Map<Seq<char>, Seq<char>>;

    closed spec fn view(&self) -> Map<Seq<char>, Seq<char>> {
        self.templates@
    }
}

impl HandlebarsAdapter {
    /// The registry holds a template under exactly the names with a source.
    pub closed spec fn wf(&self) -> bool {
        handlebars_names(self.registry) == self.templates@.dom()
    }

    pub fn new() -> (r: HandlebarsAdapter)
        ensures
            r.wf(),
            r@ == Map::<Seq<char>, Seq<char>>::empty(),
    {
        let templates = TemplateSet::new();
        let registry = new_registry();
        assert(templates@.dom() =~= Set::<Seq<char>>::empty());
        HandlebarsAdapter { templates, registry }
    }

    /// Parses `source` and binds it to `name`, replacing an earlier template
    /// of that name; a source that does not parse leaves everything as it was.
    pub fn register_source(&mut self, name: &str, source: &str) -> (r: Result<(), String>)
        requires
            old(self).wf(),
        ensures
            final(self).wf(),
            r is Ok ==> final(self)@ == old(self)@.insert(name@, source@),
            r is Err ==> final(self)@ == old(self)@,
    {
        match compile_into(&mut self.registry, name, source) {
            Ok(()) => {
                self.templates.register(name, source);
                assert(self.templates@.dom() =~= old(self).templates@.dom().insert(name@));
                Ok(())
            },
            Err(e) => Err(e),
        }
    }

    /// Registers the template files among a directory's `(file name,
    /// source)` entries, in order; one that does not parse is skipped.
    /// Returns how many were registered.
    pub fn load_files(&mut self, files: &[(String, String)]) -> (r: usize)
        requires
            old(self).wf(),
        ensures
            final(self).wf(),
            exists|ok: Seq<bool>|
                outcomes_fit(files@, ok) && final(self)@ == #[trigger] load_outcomes(
                    old(self)@,
                    files@,
                    ok,
                ) && r == registered_count(ok),
    {
        let ghost mut ok: Seq<bool> = Seq::empty();
        let mut count: usize = 0;
        let mut i: usize = 0;
        while i < files.len()
            invariant
                i <= files@.len(),
                self.wf(),
                outcomes_fit(files@.subrange(0, i as int), ok),
                self@ == load_outcomes(old(self)@, files@.subrange(0, i as int), ok),
                count == registered_count(ok),
                count <= i,
            decreases files@.len() - i,
        {
            let ghost before = files@.subrange(0, i as int);
            let ghost ok_before = ok;
            let mut done = false;
            match template_name_for_file(files[i].0.as_str()) {
                Some(name) => {
                    match self.register_source(name.as_str(), files[i].1.as_str()) {
                        Ok(()) => {
                            count += 1;
                            done = true;
                        },
                        Err(_) => {},
                    }
                },
                None => {},
            }
            proof {
                ok = ok.push(done);
            }
            i += 1;
            assert(files@.subrange(0, i as int).drop_last() =~= before);
            assert(ok.drop_last() =~= ok_before);
            assert forall|k: int| 0 <= k < ok.len() && #[trigger] ok[k] implies template_name_of(
                files@.subrange(0, i as int)[k].0@,
            ) is Some by {
                if k < ok.len() - 1 {
                    assert(ok[k] == ok_before[k]);
                    assert(files@.subrange(0, i as int)[k] == before[k]);
                }
            }
        }
        assert(files@.subrange(0, i as int) =~= files@);
        count
    }

    /// Whether a template is registered under `name`.
    pub fn has_template(&self, name: &str) -> (r: bool)
        requires
            self.wf(),
        ensures
            r == self@.contains_key(name@),
    {
        registry_has(&self.registry, name)
    }

    /// The source registered under `name`.
    pub fn source(&self, name: &str) -> (r: Option<&String>)
        ensures
            match r {
                Some(s) => self@.contains_key(name@) && s@ == self@[name@],
                None => !self@.contains_key(name@),
            },
    {
        self.templates.get(name)
    }

    /// The handlebars registry, for rendering.
    pub fn registry(&self) -> (r: &handlebars::Handlebars<'static>)
        ensures
            self.wf() ==> handlebars_names(*r) == self@.dom(),
    {
        &self.registry
    }
}

/// Some entry of the directory was registered as a template for `name`.
pub open spec fn provides(files: Seq<(String, String)>, ok: Seq<bool>, name: Seq<char>) -> bool {
    exists|i: int|
        0 <= i < files.len() && #[trigger] template_name_of(files[i].0@) == Some(name) && ok[i]
}

/// Loading order decides precedence: once a directory registered a template
/// for a name, what it leaves under that name does not depend on anything
/// loaded before it. A local directory loaded after the global one
/// therefore overrides it.
pub proof fn law_later_directory_wins(
    earlier: Map<Seq<char>, Seq<char>>,
    other: Map<Seq<char>, Seq<char>>,
    files: Seq<(String, String)>,
    ok: Seq<bool>,
    name: Seq<char>,
)
    requires
        ok.len() == files.len(),
        provides(files, ok, name),
    ensures
        load_outcomes(earlier, files, ok).contains_key(name),
        load_outcomes(earlier, files, ok)[name] == load_outcomes(other, files, ok)[name],
    decreases files.len(),
{
    let last = files.last();
    if template_name_of(last.0@) == Some(name) && ok.last() {
    } else {
        let i = choose|i: int|
            0 <= i < files.len() && #[trigger] template_name_of(files[i].0@) == Some(name) && ok[i];
        let t = files.drop_last();
        assert(t[i] == files[i]);
        assert(ok.drop_last()[i] == ok[i]);
        law_later_directory_wins(earlier, other, t, ok.drop_last(), name);
    }
}

/// The main template wins: whatever the global and local directories
/// registered, a successful registration of the main template afterwards
/// leaves exactly its source under the reserved name, and every other name
/// as the directories left it.
pub proof fn law_main_template_wins(
    start: Map<Seq<char>, Seq<char>>,
    global: Seq<(String, String)>,
    global_ok: Seq<bool>,
    local: Seq<(String, String)>,
    local_ok: Seq<bool>,
    main_source: Seq<char>,
)
    ensures
        ({
            let loaded = load_outcomes(load_outcomes(start, global, global_ok), local, local_ok);
            let after = loaded.insert("template"@, main_source);
            &&& after["template"@] == main_source
            &&& forall|n: Seq<char>| n != "template"@ ==> (#[trigger] after.contains_key(n)
                == loaded.contains_key(n) && (loaded.contains_key(n) ==> after[n] == loaded[n]))
        }),
{
}

} // verus!
