//! Admission of a location's configuration to request processing.

use vstd::prelude::*;
use vstd::string::*;
use crate::config::ModuleConfig;
use crate::domain::ValidatedConfig;
use crate::parsing::{config_accepted, parse_config, validated_from};

verus! {

/// Proof that a location's configuration was validated for this request.
pub struct ValidConfigToken {
    config: ValidatedConfig,
}

impl ValidConfigToken {
    /// The validated configuration the token holds.
    pub closed spec fn held(&self) -> ValidatedConfig {
        self.config
    }

    /// A token for a complete and valid configuration; none for a location
    /// that is not configured (an empty field) or not valid.
    pub fn from_config(config: &ModuleConfig, doc_root: String, uri: String) -> (r: Option<
        ValidConfigToken,
    >)
        ensures
            r is Some <==> config_accepted(*config),
            r matches Some(t) ==> validated_from(t.held(), *config, doc_root@, uri@),
    {
        if config.db_path.as_str().unicode_len() == 0 || config.query.as_str().unicode_len() == 0
            || config.template_path.as_str().unicode_len() == 0 {
            return None;
        }
        match parse_config(config, doc_root, uri) {
            Ok(c) => Some(ValidConfigToken { config: c }),
            Err(_) => None,
        }
    }

    pub fn get(&self) -> (r: &ValidatedConfig)
        ensures
            *r == self.held(),
    {
        &self.config
    }
}

/// The opening of the fallback document shown when a rendered request fails.
pub open spec fn error_page_head() -> Seq<char> {
    "<!DOCTYPE html>\n<html>\n<head><title>Error - sqlite-serve</title></head>\n<body style=\"font-family: monospace; max-width: 800px; margin: 2rem auto; padding: 0 1rem;\">\n    <h1 style=\"color: #CC9393;\">Request Processing Error</h1>\n    <p style=\"color: #A6A689;\">An error occurred while processing your request.</p>\n    <details style=\"margin-top: 1rem; background: #1111; padding: 1rem; border-left: 3px solid #CC9393;\">\n        <summary style=\"cursor: pointer; color: #DFAF8F; font-weight: bold;\">Error Details</summary>\n        <pre style=\"margin-top: 1rem; color: #DCDCCC; overflow-x: auto;\">"@
}

/// The close of the fallback document.
pub open spec fn error_page_tail() -> Seq<char> {
    "</pre>\n    </details>\n    <p style=\"margin-top: 2rem;\"><a href=\"/\" style=\"color: #7CB8BB;\">\u{2190} Back to Home</a></p>\n</body>\n</html>"@
}

/// The human-readable document for a failed rendered request, with the
/// failure's details in it.
pub fn error_page(details: &str) -> (r: String)
    ensures
        r@ == error_page_head() + details@ + error_page_tail(),
{
    let mut page = String::from_str(
        "<!DOCTYPE html>\n<html>\n<head><title>Error - sqlite-serve</title></head>\n<body style=\"font-family: monospace; max-width: 800px; margin: 2rem auto; padding: 0 1rem;\">\n    <h1 style=\"color: #CC9393;\">Request Processing Error</h1>\n    <p style=\"color: #A6A689;\">An error occurred while processing your request.</p>\n    <details style=\"margin-top: 1rem; background: #1111; padding: 1rem; border-left: 3px solid #CC9393;\">\n        <summary style=\"cursor: pointer; color: #DFAF8F; font-weight: bold;\">Error Details</summary>\n        <pre style=\"margin-top: 1rem; color: #DCDCCC; overflow-x: auto;\">",
    );
    page.append(details);
    page.append(
        "</pre>\n    </details>\n    <p style=\"margin-top: 2rem;\"><a href=\"/\" style=\"color: #7CB8BB;\">\u{2190} Back to Home</a></p>\n</body>\n</html>",
    );
    page
}

/// How a request ended, for the response status.
#[derive(Debug, Clone, Copy, PartialEq, Eq, Structural)]
pub enum Outcome {
    /// A response body was produced.
    Answered,
    /// A request variable could not be resolved: the client's fault.
    ParameterUnresolved,
    /// The query, a template or the rendering failed.
    ProcessingFailed,
}

/// The HTTP status of an outcome: 200 when answered, 400 when a parameter
/// could not be resolved, 500 when processing failed.
pub fn response_status(outcome: Outcome) -> (r: u16)
    ensures
        r == match outcome {
            Outcome::Answered => 200u16,
            Outcome::ParameterUnresolved => 400u16,
            Outcome::ProcessingFailed => 500u16,
        },
{
    match outcome {
        Outcome::Answered => 200,
        Outcome::ParameterUnresolved => 400,
        Outcome::ProcessingFailed => 500,
    }
}

} // verus!
