//! Turns raw configuration text into validated domain values.

use vstd::prelude::*;
use vstd::string::*;
use crate::config::ModuleConfig;
use crate::domain::ValidatedConfig;
use crate::types::{
    is_param_marker, is_variable_ref, query_accepted, query_error, normalized_query,
    template_path_accepted, DatabasePath, NginxVariable, ParamName, ParameterBinding, SqlQuery,
    TemplatePath,
};

verus! {

/// The value side of a pair names a variable: it starts with the sigil `$`.
pub open spec fn names_variable(v: Seq<char>) -> bool {
    v.len() > 0 && v[0] == '$'
}

/// One raw `(parameter name, variable or literal)` pair is acceptable.
pub open spec fn pair_accepted(name: Seq<char>, value: Seq<char>) -> bool {
    &&& names_variable(value) ==> is_variable_ref(value)
    &&& name.len() > 0 ==> is_param_marker(name)
}

/// The message for an unacceptable pair.
pub open spec fn pair_error(name: Seq<char>, value: Seq<char>) -> Seq<char> {
    if names_variable(value) && !is_variable_ref(value) {
        "invalid variable '"@ + value + "': "@ + "variable name after $ cannot be empty"@
    } else {
        "invalid param name '"@ + name + "': "@ + "parameter name must start with :: "@ + name
    }
}

/// The binding that an acceptable pair becomes.
pub open spec fn binding_of(b: ParameterBinding, name: Seq<char>, value: Seq<char>) -> bool {
    &&& b.wf()
    &&& b.marker() == name
    &&& b.is_named() == (name.len() > 0)
    &&& b.is_literal() == !names_variable(value)
    &&& if names_variable(value) {
        b.variable_ref() == value
    } else {
        b.literal() == value
    }
}

/// Every pair of the list is acceptable.
pub open spec fn pairs_accepted(p: Seq<(String, String)>) -> bool {
    forall|i: int| 0 <= i < p.len() ==> pair_accepted((#[trigger] p[i]).0@, p[i].1@)
}

/// `i` is the first unacceptable pair of the list.
pub open spec fn first_rejected_pair(p: Seq<(String, String)>, i: int) -> bool {
    &&& 0 <= i < p.len()
    &&& !pair_accepted(p[i].0@, p[i].1@)
    &&& pairs_accepted(p.subrange(0, i))
}

/// The bindings are those of the pairs, one for one, in order.
pub open spec fn bindings_of(b: Seq<ParameterBinding>, p: Seq<(String, String)>) -> bool {
    &&& b.len() == p.len()
    &&& forall|i: int| 0 <= i < p.len() ==> binding_of(#[trigger] b[i], p[i].0@, p[i].1@)
}

fn parse_binding(param_name: &String, var_name: &String) -> (r: Result<ParameterBinding, String>)
    ensures
        r is Ok <==> pair_accepted(param_name@, var_name@),
        r matches Ok(b) ==> binding_of(b, param_name@, var_name@),
        r matches Err(e) ==> e@ == pair_error(param_name@, var_name@),
{
    let is_var = var_name.as_str().unicode_len() > 0 && var_name.as_str().get_char(0) == '$';
    if is_var {
        let variable = match NginxVariable::parse(var_name.as_str()) {
            Ok(v) => v,
            Err(e) => {
                let mut msg = String::from_str("invalid variable '");
                msg.append(var_name.as_str());
                msg.append("': ");
                msg.append(e.as_str());
                return Err(msg);
            },
        };
        if param_name.as_str().unicode_len() == 0 {
            let b = ParameterBinding::Positional { variable };
            assert(b.marker() =~= param_name@);
            Ok(b)
        } else {
            match ParamName::parse(param_name.as_str()) {
                Ok(name) => Ok(ParameterBinding::Named { name, variable }),
                Err(e) => {
                    let mut msg = String::from_str("invalid param name '");
                    msg.append(param_name.as_str());
                    msg.append("': ");
                    msg.append(e.as_str());
                    Err(msg)
                },
            }
        }
    } else if param_name.as_str().unicode_len() == 0 {
        let b = ParameterBinding::PositionalLiteral { value: var_name.clone() };
        assert(b.marker() =~= param_name@);
        Ok(b)
    } else {
        match ParamName::parse(param_name.as_str()) {
            Ok(name) => Ok(ParameterBinding::NamedLiteral { name, value: var_name.clone() }),
            Err(e) => {
                let mut msg = String::from_str("invalid param name '");
                msg.append(param_name.as_str());
                msg.append("': ");
                msg.append(e.as_str());
                Err(msg)
            },
        }
    }
}

/// Types each raw pair in order: a value starting with `$` is a variable,
/// any other a literal; an empty name makes a positional slot, any other
/// must start with `:` and makes a named one. The first bad pair fails.
pub fn parse_parameter_bindings(params: &[(String, String)]) -> (r: Result<
    Vec<ParameterBinding>,
    String,
>)
    ensures
        r is Ok <==> pairs_accepted(params@),
        r matches Ok(b) ==> bindings_of(b@, params@),
        r matches Err(e) ==> exists|i: int|
            first_rejected_pair(params@, i) && e@ == #[trigger] pair_error(params@[i].0@, params@[i].1@),
{
    let mut bindings: Vec<ParameterBinding> = Vec::new();
    let mut i: usize = 0;
    while i < params.len()
        invariant
            i <= params@.len(),
            pairs_accepted(params@.subrange(0, i as int)),
            bindings_of(bindings@, params@.subrange(0, i as int)),
        decreases params@.len() - i,
    {
        match parse_binding(&params[i].0, &params[i].1) {
            Ok(b) => {
                bindings.push(b);
            },
            Err(e) => {
                assert(first_rejected_pair(params@, i as int));
                return Err(e);
            },
        }
        i += 1;
        assert(params@.subrange(0, i as int).drop_last() =~= params@.subrange(0, i - 1));
        assert forall|k: int| 0 <= k < i implies pair_accepted(
            (#[trigger] params@.subrange(0, i as int)[k]).0@,
            params@.subrange(0, i as int)[k].1@,
        ) by {
            if k < i - 1 {
                assert(params@.subrange(0, i as int)[k] == params@.subrange(0, i - 1)[k]);
            }
        }
    }
    assert(params@.subrange(0, i as int) =~= params@);
    Ok(bindings)
}

/// The raw configuration is accepted as a whole.
pub open spec fn config_accepted(config: ModuleConfig) -> bool {
    &&& config.db_path@.len() > 0
    &&& query_accepted(config.query@)
    &&& template_path_accepted(config.template_path@)
    &&& pairs_accepted(config.query_params@)
}

/// The validated configuration holds the raw one's values and the request's
/// document root and path.
pub open spec fn validated_from(
    v: ValidatedConfig,
    config: ModuleConfig,
    doc_root: Seq<char>,
    uri: Seq<char>,
) -> bool {
    &&& v.db_path@ == config.db_path@
    &&& v.query@ == config.query@
    &&& v.template_path@ == config.template_path@
    &&& bindings_of(v.parameters@, config.query_params@)
    &&& v.doc_root@ == doc_root
    &&& v.uri@ == uri
}

/// Validates a location's raw configuration for one request. Fields are
/// checked in order (store path, query, template path, parameters) and the
/// first failure is returned with its field named.
pub fn parse_config(config: &ModuleConfig, doc_root: String, uri: String) -> (r: Result<
    ValidatedConfig,
    String,
>)
    ensures
        r is Ok <==> config_accepted(*config),
        r matches Ok(v) ==> validated_from(v, *config, doc_root@, uri@),
        r matches Err(e) ==> if config.db_path@.len() == 0 {
            e@ == "invalid db_path: "@ + "database path cannot be empty"@
        } else if !query_accepted(config.query@) {
            e@ == "invalid query: "@ + query_error(normalized_query(config.query@))
        } else if !template_path_accepted(config.template_path@) {
            e@ == "invalid template_path: "@ + (if config.template_path@.len() == 0 {
                "template path cannot be empty"@
            } else {
                "template must be a .hbs file"@
            })
        } else {
            exists|i: int|
                first_rejected_pair(config.query_params@, i) && e@ == #[trigger] pair_error(
                    config.query_params@[i].0@,
                    config.query_params@[i].1@,
                )
        },
{
    let db_path = match DatabasePath::parse(config.db_path.as_str()) {
        Ok(d) => d,
        Err(e) => {
            let mut msg = String::from_str("invalid db_path: ");
            msg.append(e.as_str());
            return Err(msg);
        },
    };
    let query = match SqlQuery::parse(config.query.as_str()) {
        Ok(q) => q,
        Err(e) => {
            let mut msg = String::from_str("invalid query: ");
            msg.append(e.as_str());
            return Err(msg);
        },
    };
    let template_path = match TemplatePath::parse(config.template_path.as_str()) {
        Ok(t) => t,
        Err(e) => {
            let mut msg = String::from_str("invalid template_path: ");
            msg.append(e.as_str());
            return Err(msg);
        },
    };
    let parameters = match parse_parameter_bindings(config.query_params.as_slice()) {
        Ok(b) => b,
        Err(e) => {
            return Err(e);
        },
    };
    Ok(ValidatedConfig { db_path, query, template_path, parameters, doc_root, uri })
}

} // verus!
