//! The request pipeline's own values and decisions, with the capabilities
//! it is handed (variable lookup, query execution, templates, logging).

use vstd::prelude::*;
use vstd::string::*;
use crate::content_type::ContentType;
use crate::config::pairs_view;
use crate::query::{uses_named, Row};
use crate::types::{DatabasePath, ParameterBinding, SqlQuery, TemplatePath};

verus! {

/// Severity of a log event.
#[derive(Debug, Clone, Copy, PartialEq, Eq, Structural)]
pub enum LogLevel {
    Debug,
    Info,
    Warn,
    Error,
}

/// Structured logging. Logging never changes what a request does.
pub trait Logger {
    /// Records one event of `module`.
    fn log(&self, level: LogLevel, module: &str, message: &str);

    fn debug(&self, module: &str, message: &str) {
        self.log(LogLevel::Debug, module, message);
    }

    fn info(&self, module: &str, message: &str) {
        self.log(LogLevel::Info, module, message);
    }

    fn warn(&self, module: &str, message: &str) {
        self.log(LogLevel::Warn, module, message);
    }

    fn error(&self, module: &str, message: &str) {
        self.log(LogLevel::Error, module, message);
    }
}

/// The parameter bindings of a list, each well formed.
pub open spec fn bindings_wf(b: Seq<ParameterBinding>) -> bool {
    forall|i: int| 0 <= i < b.len() ==> #[trigger] b[i].wf()
}

/// The configuration of one request, validated.
#[derive(Debug, Clone)]
pub struct ValidatedConfig {
    pub db_path: DatabasePath,
    pub query: SqlQuery,
    pub template_path: TemplatePath,
    pub parameters: Vec<ParameterBinding>,
    pub doc_root: String,
    pub uri: String,
}

/// What `Path::parent` gives for a path, as text; empty where it gives none.
pub uninterp spec fn parent_of(p: Seq<char>) -> Seq<char>;

/// Relies on `std::path::Path::parent`: the path without its final
/// component, a function of the text alone.
#[verifier::external_body]
fn parent_directory(p: &str) -> (r: String)
    ensures
        r@ == parent_of(p@),
{
    match std::path::Path::new(p).parent() {
        Some(d) => d.to_string_lossy().into_owned(),
        None => String::new(),
    }
}

/// The main template's full path: document root, request path, `/`, and
/// the configured template path, joined as they are.
pub open spec fn template_full_path(doc_root: Seq<char>, uri: Seq<char>, template: Seq<char>) -> Seq<
    char,
> {
    doc_root + uri + seq!['/'] + template
}

impl ValidatedConfig {
    /// Where the main template lives and the directory that holds it.
    pub fn resolve_template_path(&self) -> (r: ResolvedTemplate)
        ensures
            r.full_path@ == template_full_path(self.doc_root@, self.uri@, self.template_path@),
            r.directory@ == parent_of(r.full_path@),
    {
        let mut full_path = self.doc_root.clone();
        full_path.append(self.uri.as_str());
        full_path.append("/");
        proof {
            reveal_strlit("/");
        }
        full_path.append(self.template_path.as_str());
        assert(full_path@ =~= template_full_path(self.doc_root@, self.uri@, self.template_path@));
        let directory = parent_directory(full_path.as_str());
        ResolvedTemplate { full_path, directory }
    }
}

/// The main template's location for one request.
#[derive(Debug)]
pub struct ResolvedTemplate {
    pub full_path: String,
    pub directory: String,
}

impl ResolvedTemplate {
    pub fn full_path(&self) -> (r: &str)
        ensures
            r@ == self.full_path@,
    {
        self.full_path.as_str()
    }

    pub fn directory(&self) -> (r: &str)
        ensures
            r@ == self.directory@,
    {
        self.directory.as_str()
    }
}

/// Where the main template lives; a pure function of the configuration.
pub fn resolve_template_path(config: &ValidatedConfig) -> (r: ResolvedTemplate)
    ensures
        r.full_path@ == template_full_path(config.doc_root@, config.uri@, config.template_path@),
        r.directory@ == parent_of(r.full_path@),
{
    config.resolve_template_path()
}

/// Looks up a variable reference (with its sigil) in the current request.
pub trait VariableResolver {
    /// The references asked so far with the answers given, oldest first.
    closed spec fn asked(&self) -> Seq<(Seq<char>, Result<Seq<char>, Seq<char>>)> {
        Seq::empty()
    }

    fn resolve(&mut self, var_name: &str) -> (r: Result<String, String>)
        ensures
            final(self).asked() == old(self).asked().push((var_name@, text_result(r))),
    ;
}

/// The `(marker, value)` pair submitted for one binding, given the value its
/// variable resolved to (not read for a literal binding).
pub fn bind_value(binding: &ParameterBinding, variable_value: &str) -> (r: (String, String))
    ensures
        r.0@ == binding.marker(),
        r.1@ == if binding.is_literal() {
            binding.literal()
        } else {
            variable_value@
        },
{
    match binding {
        ParameterBinding::Positional { .. } => (String::new(), String::from_str(variable_value)),
        ParameterBinding::PositionalLiteral { value } => (String::new(), value.clone()),
        ParameterBinding::Named { name, .. } => (
            String::from_str(name.as_str()),
            String::from_str(variable_value),
        ),
        ParameterBinding::NamedLiteral { name, value } => (
            String::from_str(name.as_str()),
            value.clone(),
        ),
    }
}

/// The pairs carry the markers of the bindings, in order, and each literal
/// binding's value unchanged.
pub open spec fn resolved_from(b: Seq<ParameterBinding>, v: Seq<(String, String)>) -> bool {
    &&& v.len() == b.len()
    &&& forall|i: int| 0 <= i < b.len() ==> (#[trigger] v[i]).0@ == b[i].marker()
    &&& forall|i: int| 0 <= i < b.len() && b[i].is_literal() ==> (#[trigger] v[i]).1@ == b[i].literal()
}

/// The value of a successful answer.
pub open spec fn answer_text(a: Result<Seq<char>, Seq<char>>) -> Seq<char> {
    match a {
        Ok(s) => s,
        Err(_) => Seq::empty(),
    }
}

/// What the resolver is asked for the bindings `b`, in order, with
/// `answers[i]` its answer for binding `i`: one entry per variable binding,
/// none for a literal one.
pub open spec fn asks(
    b: Seq<ParameterBinding>,
    answers: Seq<Result<Seq<char>, Seq<char>>>,
) -> Seq<(Seq<char>, Result<Seq<char>, Seq<char>>)>
    decreases b.len(),
{
    if b.len() == 0 || answers.len() != b.len() {
        Seq::empty()
    } else if b.last().is_literal() {
        asks(b.drop_last(), answers.drop_last())
    } else {
        asks(b.drop_last(), answers.drop_last()).push((b.last().variable_ref(), answers.last()))
    }
}

/// The bindings before `n` were resolved with `answers`: the resolver was
/// asked their variable references in order and answered successfully for
/// every one of them but possibly the last binding.
pub open spec fn resolved_up_to(
    b: Seq<ParameterBinding>,
    n: int,
    answers: Seq<Result<Seq<char>, Seq<char>>>,
    before: Seq<(Seq<char>, Result<Seq<char>, Seq<char>>)>,
    after: Seq<(Seq<char>, Result<Seq<char>, Seq<char>>)>,
) -> bool {
    &&& 0 <= n <= b.len()
    &&& answers.len() == n
    &&& after == before + asks(b.subrange(0, n), answers)
    &&& forall|j: int| 0 <= j < n - 1 && !(#[trigger] b[j]).is_literal() ==> answers[j] is Ok
}

/// The outcome of resolving the bindings with the resolver's answers: the
/// first failure ends it with that error unchanged; otherwise every slot
/// has its marker, literal slots their configured value and variable slots
/// the resolver's answer.
pub open spec fn resolution(
    b: Seq<ParameterBinding>,
    n: int,
    answers: Seq<Result<Seq<char>, Seq<char>>>,
    r: Result<Vec<(String, String)>, String>,
) -> bool {
    match r {
        Ok(v) => {
            &&& n == b.len()
            &&& resolved_from(b, v@)
            &&& forall|i: int|
                0 <= i < b.len() && !(#[trigger] b[i]).is_literal() ==> answers[i] is Ok && v@[i].1@
                    == answer_text(answers[i])
        },
        Err(e) => n > 0 && !b[n - 1].is_literal() && answers[n - 1] == Err::<Seq<char>, Seq<char>>(e@),
    }
}

/// Resolves every binding to a `(marker, value)` pair, in declaration order.
/// Only variable bindings ask the resolver, in order; its first failure is
/// returned unchanged; literal bindings never fail.
pub fn resolve_parameters<R: VariableResolver>(
    bindings: &[ParameterBinding],
    resolver: &mut R,
) -> (r: Result<Vec<(String, String)>, String>)
    requires
        bindings_wf(bindings@),
    ensures
        exists|n: int, answers: Seq<Result<Seq<char>, Seq<char>>>|
            resolved_up_to(bindings@, n, answers, old(resolver).asked(), final(resolver).asked())
                && #[trigger] resolution(bindings@, n, answers, r),
{
    let ghost start = resolver.asked();
    let ghost mut answers: Seq<Result<Seq<char>, Seq<char>>> = Seq::empty();
    let mut resolved: Vec<(String, String)> = Vec::new();
    let mut i: usize = 0;
    proof {
        assert(start + asks(bindings@.subrange(0, 0), answers) =~= start);
    }
    while i < bindings.len()
        invariant
            i <= bindings@.len(),
            start == old(resolver).asked(),
            resolved_from(bindings@.subrange(0, i as int), resolved@),
            resolved_up_to(bindings@, i as int, answers, start, resolver.asked()),
            forall|j: int| 0 <= j < i && !(#[trigger] bindings@[j]).is_literal() ==> answers[j] is Ok,
            forall|j: int|
                0 <= j < i && !(#[trigger] bindings@[j]).is_literal() ==> resolved@[j].1@ == answer_text(
                    answers[j],
                ),
        decreases bindings@.len() - i,
    {
        let ghost prev = answers;
        proof {
            assert(bindings@.subrange(0, i + 1).drop_last() =~= bindings@.subrange(0, i as int));
        }
        let binding = &bindings[i];
        let pair = match binding {
            ParameterBinding::Positional { variable } | ParameterBinding::Named { variable, .. } => {
                let answer = resolver.resolve(variable.as_str());
                proof {
                    answers = answers.push(text_result(answer));
                    assert(answers.drop_last() =~= prev);
                    assert(asks(bindings@.subrange(0, i + 1), answers) == asks(
                        bindings@.subrange(0, i as int),
                        prev,
                    ).push((variable@, text_result(answer))));
                    assert(resolver.asked() =~= start + asks(bindings@.subrange(0, i + 1), answers));
                }
                match answer {
                    Ok(value) => bind_value(binding, value.as_str()),
                    Err(e) => {
                        let r = Err(e);
                        assert(resolved_up_to(bindings@, i + 1, answers, start, resolver.asked()));
                        assert(resolution(bindings@, i + 1, answers, r));
                        return r;
                    },
                }
            },
            _ => {
                proof {
                    answers = answers.push(Ok(Seq::empty()));
                    assert(answers.drop_last() =~= prev);
                    assert(asks(bindings@.subrange(0, i + 1), answers) == asks(
                        bindings@.subrange(0, i as int),
                        prev,
                    ));
                }
                bind_value(binding, "")
            },
        };
        resolved.push(pair);
        i += 1;
        proof {
            assert(bindings@.subrange(0, i as int).drop_last() =~= bindings@.subrange(0, i - 1));
        }
    }
    proof {
        assert(bindings@.subrange(0, i as int) =~= bindings@);
    }
    let r = Ok(resolved);
    assert(resolution(bindings@, i as int, answers, r));
    r
}

/// One call a collaborator received, with its arguments and, where the
/// request depends on it, its answer.
pub enum Call {
    /// The query, with the store path, the query text and the parameters.
    Query {
        db_path: Seq<char>,
        query: Seq<char>,
        params: Seq<(Seq<char>, Seq<char>)>,
        answer: Result<Seq<Row>, Seq<char>>,
    },
    /// Loading the template files of a directory.
    LoadDir { dir: Seq<char> },
    /// Registering the template file at `path` under `name`; `failure` is
    /// the error answered, if any.
    Register { name: Seq<char>, path: Seq<char>, failure: Option<Seq<char>> },
    /// Rendering template `name` against the rows.
    Render { name: Seq<char>, rows: Seq<Row>, answer: Result<Seq<char>, Seq<char>> },
}

/// The error of a unit result, if any.
pub open spec fn failure_of(r: Result<(), String>) -> Option<Seq<char>> {
    match r {
        Ok(_) => None,
        Err(e) => Some(e@),
    }
}

/// A text result seen as character sequences.
pub open spec fn text_result(r: Result<String, String>) -> Result<Seq<char>, Seq<char>> {
    match r {
        Ok(s) => Ok(s@),
        Err(e) => Err(e@),
    }
}

/// A row result seen as a sequence of rows.
pub open spec fn rows_result(r: Result<Vec<Row>, String>) -> Result<Seq<Row>, Seq<char>> {
    match r {
        Ok(v) => Ok(v@),
        Err(e) => Err(e@),
    }
}

/// An optional directory seen as a character sequence.
pub open spec fn dir_view(d: Option<&str>) -> Option<Seq<char>> {
    match d {
        Some(s) => Some(s@),
        None => None,
    }
}

/// Runs one read query against the store. Each query is recorded with
/// its arguments and its answer.
pub trait QueryExecutor {
    /// The queries run so far, oldest first.
    closed spec fn queries(&self) -> Seq<Call> {
        Seq::empty()
    }

    fn execute(&mut self, db_path: &DatabasePath, query: &SqlQuery, params: &[(String, String)]) -> (r:
        Result<Vec<Row>, String>)
        ensures
            final(self).queries() == old(self).queries().push(
                Call::Query {
                    db_path: db_path@,
                    query: query@,
                    params: pairs_view(params@),
                    answer: rows_result(r),
                },
            ),
    ;
}

/// Loads templates into a registry. Each call is recorded, in order.
pub trait TemplateLoader {
    /// The calls received so far, oldest first.
    closed spec fn calls(&self) -> Seq<Call> {
        Seq::empty()
    }

    /// Registers the template files of a directory; how many there were.
    fn load_from_dir(&mut self, dir_path: &str) -> (r: Result<usize, String>)
        ensures
            final(self).calls() == old(self).calls().push(Call::LoadDir { dir: dir_path@ }),
    ;

    /// Registers the template file at `path` under `name`.
    fn register_template(&mut self, name: &str, path: &str) -> (r: Result<(), String>)
        ensures
            final(self).calls() == old(self).calls().push(
                Call::Register { name: name@, path: path@, failure: failure_of(r) },
            ),
    ;
}

/// Renders a registered template against `{ results: rows }`; the rendering
/// is recorded among the loader's calls.
pub trait TemplateRenderer: TemplateLoader {
    fn render(&mut self, template_name: &str, rows: &[Row]) -> (r: Result<String, String>)
        ensures
            final(self).calls() == old(self).calls().push(
                Call::Render { name: template_name@, rows: rows@, answer: text_result(r) },
            ),
    ;
}

/// The calls of the template stages: the global directory when one is
/// given, then the local directory, then the main template under the
/// reserved name `template`, then, when it registered, its rendering.
pub open spec fn stage_calls(
    global: Option<Seq<char>>,
    resolved_template: ResolvedTemplate,
    rows: Seq<Row>,
    failure: Option<Seq<char>>,
    answer: Result<Seq<char>, Seq<char>>,
) -> Seq<Call> {
    let local = Call::LoadDir { dir: resolved_template.directory@ };
    let loads = match global {
        Some(g) => seq![Call::LoadDir { dir: g }, local],
        None => seq![local],
    };
    let registered = loads.push(
        Call::Register { name: "template"@, path: resolved_template.full_path@, failure: failure },
    );
    if failure is None {
        registered.push(Call::Render { name: "template"@, rows: rows, answer: answer })
    } else {
        registered
    }
}

/// The outcome of the template stages: a failed registration ends them with
/// its error; otherwise the rendering, its error prefixed. Directory loads
/// never change it.
pub open spec fn stage_result(failure: Option<Seq<char>>, answer: Result<Seq<char>, Seq<char>>) -> Result<
    Seq<char>,
    Seq<char>,
> {
    match failure {
        Some(e) => Err("failed to register template: "@ + e),
        None => match answer {
            Ok(s) => Ok(s),
            Err(e) => Err("rendering failed: "@ + e),
        },
    }
}

/// The failure answered to the main template's registration: the call
/// before a final rendering, or the final call.
pub open spec fn failure_of_register(calls: Seq<Call>) -> Option<Seq<char>> {
    let last = calls.last();
    let reg = if last is Render {
        calls[calls.len() - 2]
    } else {
        last
    };
    match reg {
        Call::Register { failure, .. } => failure,
        _ => None,
    }
}

/// The answer to the final rendering, if the record ends with one.
pub open spec fn render_answer(calls: Seq<Call>) -> Result<Seq<char>, Seq<char>> {
    match calls.last() {
        Call::Render { answer, .. } => answer,
        _ => Err(Seq::empty()),
    }
}

/// The template stages ran against the rows, taking the loader's record
/// from `before` to `after`, and gave `r`, which follows from the answers
/// recorded.
pub open spec fn templates_staged(
    before: Seq<Call>,
    after: Seq<Call>,
    rows: Seq<Row>,
    resolved_template: ResolvedTemplate,
    global: Option<Seq<char>>,
    r: Result<Seq<char>, Seq<char>>,
) -> bool {
    let failure = failure_of_register(after);
    let answer = render_answer(after);
    &&& after == before + stage_calls(global, resolved_template, rows, failure, answer)
    &&& r == stage_result(failure, answer)
}

/// The query call made for a configuration and its parameters.
pub open spec fn query_call(
    config: ValidatedConfig,
    params: Seq<(String, String)>,
    answer: Result<Seq<Row>, Seq<char>>,
) -> Call {
    Call::Query {
        db_path: config.db_path@,
        query: config.query@,
        params: pairs_view(params),
        answer: answer,
    }
}

/// The answer of a recorded query.
pub open spec fn query_answer(c: Call) -> Result<Seq<Row>, Seq<char>> {
    match c {
        Call::Query { answer, .. } => answer,
        _ => Err(Seq::empty()),
    }
}

/// The executor's record grew by exactly one query for the configuration
/// and parameters.
pub open spec fn queried_once(
    before: Seq<Call>,
    after: Seq<Call>,
    config: ValidatedConfig,
    params: Seq<(String, String)>,
) -> bool {
    after == before.push(query_call(config, params, query_answer(after.last())))
}

/// A rendered request: the query was made once; its failure ends the
/// request with the executor's error, prefixed, and the loader is left
/// alone; its rows go through the template stages.
pub open spec fn rendered_path<L: TemplateLoader>(
    queries_before: Seq<Call>,
    queries_after: Seq<Call>,
    loader_before: L,
    loader_after: L,
    config: ValidatedConfig,
    params: Seq<(String, String)>,
    resolved_template: ResolvedTemplate,
    global: Option<Seq<char>>,
    r: Result<Seq<char>, Seq<char>>,
) -> bool {
    &&& queried_once(queries_before, queries_after, config, params)
    &&& match query_answer(queries_after.last()) {
        Err(e) => loader_after == loader_before && r == Err::<Seq<char>, Seq<char>>(
            "query execution failed: "@ + e,
        ),
        Ok(rows) => templates_staged(
            loader_before.calls(),
            loader_after.calls(),
            rows,
            resolved_template,
            global,
            r,
        ),
    }
}

fn prefixed(prefix: &str, detail: &str) -> (r: String)
    ensures
        r@ == prefix@ + detail@,
{
    let mut r = String::from_str(prefix);
    r.append(detail);
    r
}

/// Runs a request with the capabilities it is given.
pub struct RequestProcessor<Q, L: TemplateLoader + TemplateRenderer, Log: Logger> {
    query_executor: Q,
    template_loader: L,
    logger: Log,
}

/// What a request answers with, before transmission.
#[derive(Debug)]
pub enum Representation {
    /// The rows themselves, for serialization.
    Structured(Vec<Row>),
    /// A rendered template.
    Rendered(String),
}

/// A request's answer seen as text: the rendered body or the error.
pub open spec fn rendered_text(r: Result<Representation, String>) -> Result<Seq<char>, Seq<char>> {
    match r {
        Ok(Representation::Rendered(s)) => Ok(s@),
        Ok(Representation::Structured(_)) => Err(Seq::empty()),
        Err(e) => Err(e@),
    }
}

/// The structured answer: exactly the rows the query returned, or its error
/// unchanged.
pub open spec fn structured_answer(answer: Result<Seq<Row>, Seq<char>>, r: Result<Vec<Row>, String>) -> bool {
    match answer {
        Ok(rows) => r matches Ok(v) && v@ == rows,
        Err(e) => r matches Err(m) && m@ == e,
    }
}

impl<Q: QueryExecutor, L: TemplateLoader + TemplateRenderer, Log: Logger> RequestProcessor<Q, L, Log> {
    /// The query executor.
    pub closed spec fn executor(&self) -> Q {
        self.query_executor
    }

    /// The template loader and renderer.
    pub closed spec fn loader(&self) -> L {
        self.template_loader
    }

    pub fn new(query_executor: Q, template_loader: L, logger: Log) -> (r: Self)
        ensures
            r.executor() == query_executor,
            r.loader() == template_loader,
    {
        RequestProcessor { query_executor, template_loader, logger }
    }

    /// Runs the template stages against rows: loads the global templates
    /// (when a directory is given) and the local ones, both best-effort,
    /// registers the main template under the reserved name `template` and,
    /// when that succeeds, renders it.
    pub fn render_rows(
        &mut self,
        resolved_template: &ResolvedTemplate,
        rows: &[Row],
        global_template_dir: Option<&str>,
    ) -> (r: Result<String, String>)
        ensures
            final(self).executor() == old(self).executor(),
            templates_staged(
                old(self).loader().calls(),
                final(self).loader().calls(),
                rows@,
                *resolved_template,
                dir_view(global_template_dir),
                text_result(r),
            ),
    {
        let ghost before = self.template_loader.calls();
        match global_template_dir {
            Some(dir) => {
                self.logger.debug("templates", prefixed("Loading global templates from: ", dir).as_str());
                match self.template_loader.load_from_dir(dir) {
                    Ok(count) => {
                        self.logger.info("templates", prefixed("Global templates loaded: ", count.to_string().as_str()).as_str());
                    },
                    Err(e) => {
                        self.logger.warn("templates", prefixed("Failed to load global templates: ", e.as_str()).as_str());
                    },
                }
            },
            None => {},
        }
        self.logger.debug("templates", prefixed("Loading local templates from: ", resolved_template.directory()).as_str());
        match self.template_loader.load_from_dir(resolved_template.directory()) {
            Ok(count) => {
                self.logger.debug("templates", prefixed("Local templates loaded: ", count.to_string().as_str()).as_str());
            },
            Err(e) => {
                self.logger.warn("templates", prefixed("Failed to load local templates: ", e.as_str()).as_str());
            },
        }
        self.logger.debug("templates", prefixed("Registering main template: ", resolved_template.full_path()).as_str());
        let registered = self.template_loader.register_template("template", resolved_template.full_path());
        let ghost failure = failure_of(registered);
        let ghost at_register = self.template_loader.calls();
        proof {
            reveal_strlit("template");
        }
        match registered {
            Ok(()) => {},
            Err(e) => {
                self.logger.error("template", prefixed("Failed to register template: ", e.as_str()).as_str());
                let r = Err(prefixed("failed to register template: ", e.as_str()));
                proof {
                    let calls = self.template_loader.calls();
                    assert(failure_of_register(calls) == failure);
                    assert(calls =~= before + stage_calls(
                        dir_view(global_template_dir),
                        *resolved_template,
                        rows@,
                        failure,
                        render_answer(calls),
                    ));
                }
                return r;
            },
        }
        self.logger.debug("render", "Rendering template with query results");
        let rendered = self.template_loader.render("template", rows);
        proof {
            let calls = self.template_loader.calls();
            assert(calls.drop_last() == at_register);
            assert(failure_of_register(calls) == failure);
            assert(calls =~= before + stage_calls(
                dir_view(global_template_dir),
                *resolved_template,
                rows@,
                failure,
                render_answer(calls),
            ));
        }
        match rendered {
            Ok(body) => Ok(body),
            Err(e) => {
                self.logger.error("render", prefixed("Template rendering failed: ", e.as_str()).as_str());
                Err(prefixed("rendering failed: ", e.as_str()))
            },
        }
    }

    /// Runs the query, then the template stages against its rows. A query
    /// failure ends the request before any template stage.
    pub fn process(
        &mut self,
        config: &ValidatedConfig,
        resolved_template: &ResolvedTemplate,
        resolved_params: &[(String, String)],
        global_template_dir: Option<&str>,
    ) -> (r: Result<String, String>)
        ensures
            rendered_path(
                old(self).executor().queries(),
                final(self).executor().queries(),
                old(self).loader(),
                final(self).loader(),
                *config,
                resolved_params@,
                *resolved_template,
                dir_view(global_template_dir),
                text_result(r),
            ),
    {
        self.logger.debug("processor", prefixed("Processing request for ", config.uri.as_str()).as_str());
        self.logger.debug("query", prefixed("Executing query: ", config.query.as_str()).as_str());
        let queried = self.query_executor.execute(&config.db_path, &config.query, resolved_params);
        let results = match queried {
            Ok(rows) => rows,
            Err(e) => {
                self.logger.error("query", prefixed("Query execution failed: ", e.as_str()).as_str());
                return Err(prefixed("query execution failed: ", e.as_str()));
            },
        };
        self.logger.debug("query", prefixed("Rows returned: ", results.len().to_string().as_str()).as_str());
        self.render_rows(resolved_template, results.as_slice(), global_template_dir)
    }

    /// The structured path: the query alone. No template stage runs; the
    /// rows, or the executor's error, come back unchanged.
    pub fn process_structured(
        &mut self,
        config: &ValidatedConfig,
        resolved_params: &[(String, String)],
    ) -> (r: Result<Vec<Row>, String>)
        ensures
            final(self).loader() == old(self).loader(),
            queried_once(old(self).executor().queries(), final(self).executor().queries(), *config, resolved_params@),
            structured_answer(query_answer(final(self).executor().queries().last()), r),
    {
        self.logger.debug("query", prefixed("Executing query for JSON: ", config.query.as_str()).as_str());
        let queried = self.query_executor.execute(&config.db_path, &config.query, resolved_params);
        match queried {
            Ok(rows) => {
                self.logger.info("success", prefixed("JSON rows returned: ", rows.len().to_string().as_str()).as_str());
                Ok(rows)
            },
            Err(e) => {
                self.logger.error("query", prefixed("Query failed: ", e.as_str()).as_str());
                Err(e)
            },
        }
    }

    /// Answers a request in the negotiated representation: JSON takes the
    /// structured path and leaves the templates untouched; HTML takes the
    /// rendered path.
    pub fn respond(
        &mut self,
        content_type: ContentType,
        config: &ValidatedConfig,
        resolved_template: &ResolvedTemplate,
        resolved_params: &[(String, String)],
        global_template_dir: Option<&str>,
    ) -> (r: Result<Representation, String>)
        ensures
            content_type == ContentType::Json ==> {
                &&& final(self).loader() == old(self).loader()
                &&& queried_once(old(self).executor().queries(), final(self).executor().queries(), *config, resolved_params@)
                &&& match query_answer(final(self).executor().queries().last()) {
                    Ok(rows) => r matches Ok(Representation::Structured(v)) && v@ == rows,
                    Err(e) => r matches Err(m) && m@ == e,
                }
            },
            content_type == ContentType::Html ==> {
                &&& r matches Ok(x) ==> x is Rendered
                &&& rendered_path(
                    old(self).executor().queries(),
                    final(self).executor().queries(),
                    old(self).loader(),
                    final(self).loader(),
                    *config,
                    resolved_params@,
                    *resolved_template,
                    dir_view(global_template_dir),
                    rendered_text(r),
                )
            },
    {
        match content_type {
            ContentType::Json => match self.process_structured(config, resolved_params) {
                Ok(rows) => Ok(Representation::Structured(rows)),
                Err(e) => Err(e),
            },
            ContentType::Html => match self.process(config, resolved_template, resolved_params, global_template_dir) {
                Ok(body) => Ok(Representation::Rendered(body)),
                Err(e) => Err(e),
            },
        }
    }
}

/// The submission style follows from the bindings alone: the resolved
/// parameters go by name exactly when some binding is named, for all of
/// them, and by position otherwise.
pub proof fn law_named_submission(b: Seq<ParameterBinding>, resolved: Seq<(String, String)>)
    requires
        bindings_wf(b),
        resolved_from(b, resolved),
    ensures
        uses_named(resolved) <==> exists|i: int| 0 <= i < b.len() && (#[trigger] b[i]).is_named(),
{
    if uses_named(resolved) {
        let i = choose|i: int| 0 <= i < resolved.len() && (#[trigger] resolved[i]).0@.len() > 0;
        assert(resolved[i].0@ == b[i].marker());
        assert(b[i].is_named());
    }
    if exists|i: int| 0 <= i < b.len() && (#[trigger] b[i]).is_named() {
        let i = choose|i: int| 0 <= i < b.len() && (#[trigger] b[i]).is_named();
        assert(b[i].wf());
        assert(resolved[i].0@ == b[i].marker());
        assert(resolved[i].0@.len() > 0);
    }
}

} // verus!
