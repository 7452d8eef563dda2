//! From a configuration text to a recipe in one step.

use vstd::prelude::*;
use crate::config::{ValidationResult, ValidationResultView};
use crate::dockerfile::{generate_dockerfile, recipe};
use crate::json::parse_outcome;
use crate::schema::lacks_required;
use crate::validation::{
    error_text, is_schema_failure, validate_json_config, validation_outcome,
    ValidationErrorView,
};

verus! {

/// The answer to a request for a recipe: the recipe of the configuration
/// that the text validates to, or the text of the validation error.
pub open spec fn generation(
    input: Seq<char>,
    repo: Seq<char>,
    commit: Seq<char>,
    language: Seq<char>,
) -> ValidationResultView {
    match validation_outcome(input, language) {
        Ok(config) => ValidationResultView {
            success: true,
            error: None,
            dockerfile: Some(recipe(config, repo, commit, language)),
        },
        Err(error) => ValidationResultView {
            success: false,
            error: Some(error_text(error)),
            dockerfile: None,
        },
    }
}

/// Validates a configuration text and renders its recipe. The recipe is
/// handed back to be read; nothing is built. A text whose document lacks
/// the test command or the log parser gets no recipe, and the error it
/// gets is one over the schema.
pub fn generate_docker_file(
    input_json: String,
    github_repo_url: String,
    commit: String,
    language: String,
) -> (result: ValidationResult)
    ensures
        result@ == generation(input_json@, github_repo_url@, commit@, language@),
        parse_outcome(input_json@) is Ok && lacks_required(parse_outcome(input_json@)->Ok_0) ==> {
            &&& !result.success
            &&& exists|error: ValidationErrorView|
                is_schema_failure(error) && result@.error == Some(#[trigger] error_text(error))
        },
{
    match validate_json_config(input_json.as_str(), language.as_str()) {
        Ok(config) => {
            let dockerfile = generate_dockerfile(
                &config,
                github_repo_url.as_str(),
                commit.as_str(),
                language.as_str(),
            );
            ValidationResult { success: true, error: None, dockerfile: Some(dockerfile) }
        },
        Err(error) => ValidationResult {
            success: false,
            error: Some(error.message()),
            dockerfile: None,
        },
    }
}

/// Validation followed by rendering is a function of its four inputs: two
/// answers to the same request are the same, character for character. An
/// answer holds a recipe exactly where validation succeeds, and then the
/// recipe is that of the validated configuration.
pub proof fn lemma_generation_is_deterministic(
    first: ValidationResultView,
    second: ValidationResultView,
    input: Seq<char>,
    repo: Seq<char>,
    commit: Seq<char>,
    language: Seq<char>,
)
    requires
        first == generation(input, repo, commit, language),
        second == generation(input, repo, commit, language),
    ensures
        first == second,
        first.dockerfile == second.dockerfile,
        first.success <==> validation_outcome(input, language) is Ok,
        first.success <==> first.dockerfile is Some,
        validation_outcome(input, language) matches Ok(config) ==> first.dockerfile == Some(
            recipe(config, repo, commit, language),
        ),
{
}

} // verus!
