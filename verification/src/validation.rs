//! Validation of a configuration document: the parser and the schema
//! validator say what they find, and the library reads the document into
//! the typed configuration, holding it to the closed schema once more.

use vstd::prelude::*;
use crate::config::{DockerSpecs, DockerSpecsView, TestConfig, TestConfigView};
use crate::json::{
    find_member, items_view, lookup, members_view, parse_outcome, parse_tree, read_tree,
    write_tree, written, Json, JsonValue,
};
use crate::language::{family_of, LanguageFamily};
use crate::schema::{
    allowed_parsers, allowed_settings, compile_refusal, compile_schema, config_fields,
    find_violations, get_json_schema, image_settings, lacks_required, log_parsers,
    schema_model, strs,
    violations_of, violations_view, SchemaViolation, BUILD, DOCKER_SPECS, INSTALL,
    LOG_PARSER_NAME, NODE_VERSION, PNPM_VERSION, PRE_INSTALL, RUST_VERSION, TEST_CMD,
    UBUNTU_VERSION,
};
use crate::text::{join_texts, joined, texts};

verus! {

/// Why a document that the schema validator let pass is still no
/// configuration of the family.
#[derive(Clone, Copy, Debug, PartialEq, Eq, Structural)]
pub enum Mismatch {
    /// The document is not an object.
    NotAnObject,
    /// An object holds a member that the schema does not know.
    UnknownField,
    /// The test command or the log parser is missing.
    MissingField,
    /// A member's value is of the wrong type.
    WrongType,
    /// The log parser is not one of the family's.
    UnknownParser,
}

/// Why validation failed.
#[derive(Debug, Clone, PartialEq, Eq)]
pub enum ValidationError {
    /// The text is no JSON: the parser's message.
    Syntax(String),
    /// The schema itself was refused: the validator's message.
    SchemaCompilation(String),
    /// The document breaks the schema: one message for each violation.
    Schema(Vec<String>),
    /// The document passed the schema and still does not fit the type.
    Deserialization(Mismatch),
}

/// What a `ValidationError` holds.
pub enum ValidationErrorView {
    Syntax(Seq<char>),
    SchemaCompilation(Seq<char>),
    Schema(Seq<Seq<char>>),
    Deserialization(Mismatch),
}

impl View for ValidationError {
    type V = ValidationErrorView;

    open spec fn view(&self) -> ValidationErrorView {
        match self {
            ValidationError::Syntax(m) => ValidationErrorView::Syntax(m@),
            ValidationError::SchemaCompilation(m) => ValidationErrorView::SchemaCompilation(m@),
            ValidationError::Schema(ms) => ValidationErrorView::Schema(texts(ms@)),
            ValidationError::Deserialization(m) => ValidationErrorView::Deserialization(*m),
        }
    }
}

/// Whether every member is named by one of `allowed`.
pub open spec fn known_keys(members: Seq<(Seq<char>, Json)>, allowed: Seq<Seq<char>>) -> bool {
    forall|i: int| 0 <= i < members.len() ==> allowed.contains((#[trigger] members[i]).0)
}

/// Whether every item is a string.
pub open spec fn all_text(items: Seq<Json>) -> bool {
    forall|i: int| 0 <= i < items.len() ==> #[trigger] items[i] is Text
}

/// Whether every member's value is a string.
pub open spec fn all_text_values(members: Seq<(Seq<char>, Json)>) -> bool {
    forall|i: int| 0 <= i < members.len() ==> (#[trigger] members[i]).1 is Text
}

/// The characters of each item of a list of strings.
pub open spec fn text_list(items: Seq<Json>) -> Seq<Seq<char>> {
    Seq::new(items.len(), |i: int| items[i]->Text_0)
}

/// A field that must be there and hold a string.
pub open spec fn text_field(members: Seq<(Seq<char>, Json)>, key: Seq<char>) -> Result<
    Seq<char>,
    Mismatch,
> {
    match lookup(members, key) {
        None => Err(Mismatch::MissingField),
        Some(Json::Text(t)) => Ok(t),
        Some(_) => Err(Mismatch::WrongType),
    }
}

/// A field that may be there and then holds a list of strings.
pub open spec fn list_field(members: Seq<(Seq<char>, Json)>, key: Seq<char>) -> Result<
    Option<Seq<Seq<char>>>,
    Mismatch,
> {
    match lookup(members, key) {
        None => Ok(None),
        Some(Json::Array(items)) => if all_text(items) {
            Ok(Some(text_list(items)))
        } else {
            Err(Mismatch::WrongType)
        },
        Some(_) => Err(Mismatch::WrongType),
    }
}

/// An image setting: the string under `key`, if there is one.
pub open spec fn setting(members: Seq<(Seq<char>, Json)>, key: Seq<char>) -> Option<Seq<char>> {
    match lookup(members, key) {
        Some(Json::Text(t)) => Some(t),
        _ => None,
    }
}

/// The image settings, which may be there and then are an object of
/// strings under names that the family allows.
pub open spec fn specs_field(members: Seq<(Seq<char>, Json)>, family: LanguageFamily) -> Result<
    Option<DockerSpecsView>,
    Mismatch,
> {
    match lookup(members, DOCKER_SPECS@) {
        None => Ok(None),
        Some(Json::Object(settings)) => if !known_keys(settings, allowed_settings(family)) {
            Err(Mismatch::UnknownField)
        } else if !all_text_values(settings) {
            Err(Mismatch::WrongType)
        } else {
            Ok(
                Some(
                    DockerSpecsView {
                        ubuntu_version: setting(settings, UBUNTU_VERSION@),
                        node_version: setting(settings, NODE_VERSION@),
                        pnpm_version: setting(settings, PNPM_VERSION@),
                        rust_version: setting(settings, RUST_VERSION@),
                    },
                ),
            )
        },
        Some(_) => Err(Mismatch::WrongType),
    }
}

/// The members of a configuration object read into the typed
/// configuration, or the first reason why they cannot be.
pub open spec fn typed_members(members: Seq<(Seq<char>, Json)>, family: LanguageFamily) -> Result<
    TestConfigView,
    Mismatch,
> {
    if !known_keys(members, config_fields()) {
        Err(Mismatch::UnknownField)
    } else {
        match text_field(members, TEST_CMD@) {
            Err(m) => Err(m),
            Ok(test_cmd) => match text_field(members, LOG_PARSER_NAME@) {
                Err(m) => Err(m),
                Ok(log_parser_name) => if !allowed_parsers(family).contains(log_parser_name) {
                    Err(Mismatch::UnknownParser)
                } else {
                    match list_field(members, PRE_INSTALL@) {
                        Err(m) => Err(m),
                        Ok(pre_install) => match list_field(members, INSTALL@) {
                            Err(m) => Err(m),
                            Ok(install) => match list_field(members, BUILD@) {
                                Err(m) => Err(m),
                                Ok(build) => match specs_field(members, family) {
                                    Err(m) => Err(m),
                                    Ok(docker_specs) => Ok(
                                        TestConfigView {
                                            test_cmd,
                                            log_parser_name,
                                            pre_install,
                                            install,
                                            build,
                                            docker_specs,
                                        },
                                    ),
                                },
                            },
                        },
                    }
                },
            },
        }
    }
}

/// A document read into the typed configuration of a family. It succeeds
/// exactly on the documents of the family's closed schema: an object with
/// no unknown member, with the test command and a log parser of the
/// family, and with well-typed optional members.
pub open spec fn conformance(doc: Json, family: LanguageFamily) -> Result<
    TestConfigView,
    Mismatch,
> {
    match doc {
        Json::Object(members) => typed_members(members, family),
        _ => Err(Mismatch::NotAnObject),
    }
}

/// The message for one violation: the place, `root` for the top level,
/// and what the validator said.
pub open spec fn violation_message(violation: (Seq<char>, Seq<char>)) -> Seq<char> {
    "At '"@ + (if violation.0.len() == 0 {
        "root"@
    } else {
        violation.0
    }) + "': "@ + violation.1
}

/// One message for each violation, in the validator's order.
pub open spec fn violation_messages(violations: Seq<(Seq<char>, Seq<char>)>) -> Seq<Seq<char>> {
    Seq::new(violations.len(), |i: int| violation_message(violations[i]))
}

/// What becomes of a parsed document, given the violations that the schema
/// validator reported: a schema error with all their messages if there are
/// any; else the typed configuration, or the reason why the document does
/// not fit it.
pub open spec fn decision(
    doc: Json,
    violations: Seq<(Seq<char>, Seq<char>)>,
    family: LanguageFamily,
) -> Result<TestConfigView, ValidationErrorView> {
    if violations.len() > 0 {
        Err(ValidationErrorView::Schema(violation_messages(violations)))
    } else {
        match conformance(doc, family) {
            Ok(config) => Ok(config),
            Err(mismatch) => Err(ValidationErrorView::Deserialization(mismatch)),
        }
    }
}

/// What validation makes of a text for the family that `language` names.
pub open spec fn validation_outcome(input: Seq<char>, language: Seq<char>) -> Result<
    TestConfigView,
    ValidationErrorView,
> {
    let schema = written(schema_model(family_of(language)));
    match parse_outcome(input) {
        Err(message) => Err(ValidationErrorView::Syntax(message)),
        Ok(doc) => match compile_refusal(schema) {
            Some(message) => Err(ValidationErrorView::SchemaCompilation(message)),
            None => decision(doc, violations_of(schema, doc), family_of(language)),
        },
    }
}

/// What a result holds is what is owed.
pub open spec fn agrees<T: View, E: View>(got: Result<T, E>, owed: Result<T::V, E::V>) -> bool {
    match got {
        Ok(value) => owed == Ok::<T::V, E::V>(value@),
        Err(error) => owed == Err::<T::V, E::V>(error@),
    }
}

/// What a mismatch is called in a message.
pub open spec fn mismatch_text(mismatch: Mismatch) -> Seq<char> {
    match mismatch {
        Mismatch::NotAnObject => "the document is not an object"@,
        Mismatch::UnknownField => "an object holds a member that the schema does not know"@,
        Mismatch::MissingField => "the test command or the log parser is missing"@,
        Mismatch::WrongType => "a member's value is of the wrong type"@,
        Mismatch::UnknownParser => "the log parser is not one of the family's"@,
    }
}

/// The one text that tells a user why validation failed.
pub open spec fn error_text(error: ValidationErrorView) -> Seq<char> {
    match error {
        ValidationErrorView::Syntax(m) => "Invalid JSON syntax: "@ + m,
        ValidationErrorView::SchemaCompilation(m) => "Schema compilation error: "@ + m,
        ValidationErrorView::Schema(ms) => "Validation failed:\n"@ + joined(ms, "\n"@),
        ValidationErrorView::Deserialization(m) => "Failed to parse validated JSON: "@
            + mismatch_text(m),
    }
}

impl Mismatch {
    /// What the mismatch is called in a message.
    pub fn describe(&self) -> (text: &'static str)
        ensures
            text@ == mismatch_text(*self),
    {
        match self {
            Mismatch::NotAnObject => "the document is not an object",
            Mismatch::UnknownField => "an object holds a member that the schema does not know",
            Mismatch::MissingField => "the test command or the log parser is missing",
            Mismatch::WrongType => "a member's value is of the wrong type",
            Mismatch::UnknownParser => "the log parser is not one of the family's",
        }
    }
}

impl ValidationError {
    /// The one text that tells a user why validation failed.
    pub fn message(&self) -> (text: String)
        ensures
            text@ == error_text(self@),
    {
        match self {
            ValidationError::Syntax(m) => {
                let mut text = String::from_str("Invalid JSON syntax: ");
                text.append(m.as_str());
                text
            },
            ValidationError::SchemaCompilation(m) => {
                let mut text = String::from_str("Schema compilation error: ");
                text.append(m.as_str());
                text
            },
            ValidationError::Schema(ms) => {
                let mut text = String::from_str("Validation failed:\n");
                let lines = join_texts(ms, "\n");
                text.append(lines.as_str());
                text
            },
            ValidationError::Deserialization(m) => {
                let mut text = String::from_str("Failed to parse validated JSON: ");
                text.append(m.describe());
                text
            },
        }
    }
}

/// Whether `key` is one of `allowed`.
fn is_listed(allowed: &Vec<&'static str>, key: &String) -> (listed: bool)
    ensures
        listed == strs(allowed@).contains(key@),
{
    let mut i: usize = 0;
    while i < allowed.len()
        invariant
            i <= allowed.len(),
            forall|k: int| 0 <= k < i ==> strs(allowed@)[k] != key@,
        decreases allowed.len() - i,
    {
        if crate::text::same_text(allowed[i], key.as_str()) {
            assert(strs(allowed@)[i as int] == key@);
            return true;
        }
        i = i + 1;
    }
    false
}

/// Whether every member is named by one of `allowed`.
fn keys_known(members: &Vec<(String, JsonValue)>, allowed: &Vec<&'static str>) -> (known: bool)
    ensures
        known == known_keys(members_view(members@), strs(allowed@)),
{
    let mut i: usize = 0;
    while i < members.len()
        invariant
            i <= members.len(),
            forall|k: int|
                0 <= k < i ==> strs(allowed@).contains((#[trigger] members_view(members@)[k]).0),
        decreases members.len() - i,
    {
        if !is_listed(allowed, &members[i].0) {
            assert(!strs(allowed@).contains(members_view(members@)[i as int].0));
            return false;
        }
        i = i + 1;
    }
    true
}

/// Reads a field that must be there and hold a string.
fn read_text_field(members: &Vec<(String, JsonValue)>, key: &str) -> (field: Result<
    String,
    Mismatch,
>)
    ensures
        match field {
            Ok(t) => text_field(members_view(members@), key@) == Ok::<Seq<char>, Mismatch>(t@),
            Err(m) => text_field(members_view(members@), key@) == Err::<Seq<char>, Mismatch>(m),
        },
{
    match find_member(members, key) {
        None => Err(Mismatch::MissingField),
        Some(value) => match value {
            JsonValue::Text(t) => Ok(t.clone()),
            _ => Err(Mismatch::WrongType),
        },
    }
}

/// Reads a list of strings.
fn read_texts(items: &Vec<JsonValue>) -> (list: Option<Vec<String>>)
    ensures
        match list {
            Some(v) => all_text(items_view(items@)) && texts(v@) == text_list(items_view(items@)),
            None => !all_text(items_view(items@)),
        },
{
    let mut list: Vec<String> = Vec::new();
    let mut i: usize = 0;
    while i < items.len()
        invariant
            i <= items.len(),
            list@.len() == i,
            forall|k: int|
                0 <= k < i ==> (#[trigger] items_view(items@)[k]) == Json::Text(list@[k]@),
        decreases items.len() - i,
    {
        match &items[i] {
            JsonValue::Text(t) => {
                list.push(t.clone());
            },
            _ => {
                assert(!(items_view(items@)[i as int] is Text));
                return None;
            },
        }
        i = i + 1;
    }
    assert(texts(list@) =~= text_list(items_view(items@)));
    Some(list)
}

/// Reads a field that may be there and then holds a list of strings.
fn read_list_field(members: &Vec<(String, JsonValue)>, key: &str) -> (field: Result<
    Option<Vec<String>>,
    Mismatch,
>)
    ensures
        match field {
            Ok(list) => list_field(members_view(members@), key@) == Ok::<
                Option<Seq<Seq<char>>>,
                Mismatch,
            >(crate::text::opt_texts(list)),
            Err(m) => list_field(members_view(members@), key@) == Err::<
                Option<Seq<Seq<char>>>,
                Mismatch,
            >(m),
        },
{
    match find_member(members, key) {
        None => Ok(None),
        Some(value) => match value {
            JsonValue::Array(items) => match read_texts(items) {
                Some(list) => Ok(Some(list)),
                None => Err(Mismatch::WrongType),
            },
            _ => Err(Mismatch::WrongType),
        },
    }
}

/// Whether every member's value is a string.
fn values_are_text(members: &Vec<(String, JsonValue)>) -> (all: bool)
    ensures
        all == all_text_values(members_view(members@)),
{
    let mut i: usize = 0;
    while i < members.len()
        invariant
            i <= members.len(),
            forall|k: int| 0 <= k < i ==> (#[trigger] members_view(members@)[k]).1 is Text,
        decreases members.len() - i,
    {
        match &members[i].1 {
            JsonValue::Text(_) => {},
            _ => {
                assert(!(members_view(members@)[i as int].1 is Text));
                return false;
            },
        }
        i = i + 1;
    }
    true
}

/// Reads one image setting.
fn read_setting(members: &Vec<(String, JsonValue)>, key: &str) -> (value: Option<String>)
    ensures
        crate::text::opt_text(value) == setting(members_view(members@), key@),
{
    match find_member(members, key) {
        Some(found) => match found {
            JsonValue::Text(t) => Some(t.clone()),
            _ => None,
        },
        None => None,
    }
}

/// Reads the image settings.
fn read_specs_field(members: &Vec<(String, JsonValue)>, family: LanguageFamily) -> (field: Result<
    Option<DockerSpecs>,
    Mismatch,
>)
    ensures
        match field {
            Ok(Some(specs)) => specs_field(members_view(members@), family) == Ok::<
                Option<DockerSpecsView>,
                Mismatch,
            >(Some(specs@)),
            Ok(None) => specs_field(members_view(members@), family) == Ok::<
                Option<DockerSpecsView>,
                Mismatch,
            >(None),
            Err(m) => specs_field(members_view(members@), family) == Err::<
                Option<DockerSpecsView>,
                Mismatch,
            >(m),
        },
{
    match find_member(members, DOCKER_SPECS) {
        None => Ok(None),
        Some(value) => match value {
            JsonValue::Object(settings) => {
                if !keys_known(settings, &image_settings(family)) {
                    Err(Mismatch::UnknownField)
                } else if !values_are_text(settings) {
                    Err(Mismatch::WrongType)
                } else {
                    Ok(
                        Some(
                            DockerSpecs {
                                ubuntu_version: read_setting(settings, UBUNTU_VERSION),
                                node_version: read_setting(settings, NODE_VERSION),
                                pnpm_version: read_setting(settings, PNPM_VERSION),
                                rust_version: read_setting(settings, RUST_VERSION),
                            },
                        ),
                    )
                }
            },
            _ => Err(Mismatch::WrongType),
        },
    }
}

/// The fields a configuration document may have.
fn known_fields() -> (fields: Vec<&'static str>)
    ensures
        strs(fields@) == config_fields(),
{
    let fields = vec![TEST_CMD, LOG_PARSER_NAME, PRE_INSTALL, INSTALL, BUILD, DOCKER_SPECS];
    assert(strs(fields@) =~= config_fields());
    fields
}

/// Reads a document into the typed configuration of a family, holding it
/// to the family's closed schema.
pub fn typed_config(doc: &JsonValue, family: LanguageFamily) -> (config: Result<
    TestConfig,
    Mismatch,
>)
    ensures
        match config {
            Ok(c) => conformance(doc@, family) == Ok::<TestConfigView, Mismatch>(c@),
            Err(m) => conformance(doc@, family) == Err::<TestConfigView, Mismatch>(m),
        },
{
    match doc {
        JsonValue::Object(members) => {
            if !keys_known(members, &known_fields()) {
                return Err(Mismatch::UnknownField);
            }
            let test_cmd = match read_text_field(members, TEST_CMD) {
                Ok(t) => t,
                Err(m) => {
                    return Err(m);
                },
            };
            let log_parser_name = match read_text_field(members, LOG_PARSER_NAME) {
                Ok(t) => t,
                Err(m) => {
                    return Err(m);
                },
            };
            if !is_listed(&log_parsers(family), &log_parser_name) {
                return Err(Mismatch::UnknownParser);
            }
            let pre_install = match read_list_field(members, PRE_INSTALL) {
                Ok(list) => list,
                Err(m) => {
                    return Err(m);
                },
            };
            let install = match read_list_field(members, INSTALL) {
                Ok(list) => list,
                Err(m) => {
                    return Err(m);
                },
            };
            let build = match read_list_field(members, BUILD) {
                Ok(list) => list,
                Err(m) => {
                    return Err(m);
                },
            };
            let docker_specs = match read_specs_field(members, family) {
                Ok(specs) => specs,
                Err(m) => {
                    return Err(m);
                },
            };
            Ok(TestConfig { test_cmd, log_parser_name, pre_install, install, build, docker_specs })
        },
        _ => Err(Mismatch::NotAnObject),
    }
}

/// Writes the message for one violation.
fn describe_violation(violation: &SchemaViolation) -> (message: String)
    ensures
        message@ == violation_message(violation@),
{
    let mut message = String::from_str("At '");
    if violation.path.as_str().is_empty() {
        message.append("root");
    } else {
        message.append(violation.path.as_str());
    }
    message.append("': ");
    message.append(violation.message.as_str());
    assert(message@ =~= violation_message(violation@));
    message
}

/// Decides what becomes of a parsed document, given the violations that
/// the schema validator reported of it.
pub fn config_from_document(
    doc: &JsonValue,
    violations: &Vec<SchemaViolation>,
    language: &str,
) -> (config: Result<TestConfig, ValidationError>)
    ensures
        agrees(config, decision(doc@, violations_view(violations@), family_of(language@))),
{
    if violations.len() > 0 {
        let mut messages: Vec<String> = Vec::new();
        let mut i: usize = 0;
        while i < violations.len()
            invariant
                i <= violations.len(),
                messages@.len() == i,
                forall|k: int|
                    0 <= k < i ==> (#[trigger] messages@[k])@ == violation_message(
                        violations@[k]@,
                    ),
            decreases violations.len() - i,
        {
            messages.push(describe_violation(&violations[i]));
            i = i + 1;
        }
        assert(texts(messages@) =~= violation_messages(violations_view(violations@)));
        Err(ValidationError::Schema(messages))
    } else {
        match typed_config(doc, LanguageFamily::from_name(language)) {
            Ok(config) => Ok(config),
            Err(mismatch) => Err(ValidationError::Deserialization(mismatch)),
        }
    }
}

/// Whether a failure is one over the schema: the document breaks it, with
/// at least one message saying how, or the validator refused the schema
/// itself.
pub open spec fn is_schema_failure(error: ValidationErrorView) -> bool {
    match error {
        ValidationErrorView::Schema(messages) => messages.len() > 0,
        ValidationErrorView::SchemaCompilation(_) => true,
        _ => false,
    }
}

/// Validates a configuration text for the family that `language` names:
/// parses it, holds it to the family's schema, and reads it into the typed
/// configuration. A text whose document lacks the test command or the log
/// parser fails over the schema, never over the typed reading.
pub fn validate_json_config(input: &str, language: &str) -> (config: Result<
    TestConfig,
    ValidationError,
>)
    ensures
        agrees(config, validation_outcome(input@, language@)),
        parse_outcome(input@) is Ok && lacks_required(parse_outcome(input@)->Ok_0) ==> config is Err
            && is_schema_failure(config->Err_0@),
{
    let tree = match parse_tree(input) {
        Ok(tree) => tree,
        Err(message) => {
            return Err(ValidationError::Syntax(message));
        },
    };
    let schema = write_tree(&get_json_schema(language));
    let validator = match compile_schema(&schema) {
        Ok(validator) => validator,
        Err(message) => {
            return Err(ValidationError::SchemaCompilation(message));
        },
    };
    let violations = find_violations(&validator, &tree);
    let doc = read_tree(&tree);
    config_from_document(&doc, &violations, language)
}

/// `lookup` finds nothing exactly where no member has the key.
pub proof fn lemma_lookup_misses(members: Seq<(Seq<char>, Json)>, key: Seq<char>)
    ensures
        lookup(members, key) is None <==> forall|i: int|
            0 <= i < members.len() ==> (#[trigger] members[i]).0 != key,
    decreases members.len(),
{
    if members.len() > 0 {
        let rest = members.drop_first();
        lemma_lookup_misses(rest, key);
        if members[0].0 != key {
            if lookup(rest, key) is None {
                assert forall|i: int| 0 <= i < members.len() implies (#[trigger] members[i]).0
                    != key by {
                    if i > 0 {
                        assert(rest[i - 1] == members[i]);
                    }
                }
            } else {
                let j = choose|j: int| 0 <= j < rest.len() && (#[trigger] rest[j]).0 == key;
                assert(members[j + 1] == rest[j]);
            }
        }
    }
}

/// A schema error always carries a message: one for each violation, and
/// it arises only where there is a violation.
pub proof fn lemma_schema_error_has_messages(input: Seq<char>, language: Seq<char>)
    ensures
        validation_outcome(input, language) matches Err(ValidationErrorView::Schema(messages))
            ==> messages.len() > 0,
{
}

/// A document without the test command, or without the log parser, never
/// validates, whatever the schema validator reports of it; and where the
/// validator reports a violation, the failure is a schema error with one
/// message for each violation.
pub proof fn lemma_incomplete_document_fails(
    doc: Json,
    violations: Seq<(Seq<char>, Seq<char>)>,
    family: LanguageFamily,
)
    requires
        !doc.has_member(TEST_CMD@) || !doc.has_member(LOG_PARSER_NAME@),
    ensures
        decision(doc, violations, family) is Err,
        violations.len() > 0 ==> decision(doc, violations, family) == Err::<
            TestConfigView,
            ValidationErrorView,
        >(ValidationErrorView::Schema(violation_messages(violations))),
        violation_messages(violations).len() == violations.len(),
{
    match doc {
        Json::Object(members) => {
            lemma_lookup_misses(members, TEST_CMD@);
            lemma_lookup_misses(members, LOG_PARSER_NAME@);
            assert(doc.members() == members);
        },
        _ => {},
    }
}

/// A text whose document lacks the test command, or the log parser, fails
/// validation for every family.
pub proof fn lemma_incomplete_text_fails(input: Seq<char>, language: Seq<char>)
    requires
        parse_outcome(input) matches Ok(doc) && (!doc.has_member(TEST_CMD@) || !doc.has_member(
            LOG_PARSER_NAME@,
        )),
    ensures
        validation_outcome(input, language) is Err,
{
    let schema = written(schema_model(family_of(language)));
    let doc = parse_outcome(input)->Ok_0;
    lemma_incomplete_document_fails(doc, violations_of(schema, doc), family_of(language));
}

/// A document with a top-level member that the schema does not know never
/// validates, whatever the schema validator reports of it.
pub proof fn lemma_unknown_member_fails(
    doc: Json,
    violations: Seq<(Seq<char>, Seq<char>)>,
    family: LanguageFamily,
    key: Seq<char>,
)
    requires
        doc.has_member(key),
        !config_fields().contains(key),
    ensures
        decision(doc, violations, family) is Err,
{
    let i = choose|i: int| 0 <= i < doc.members().len() && (#[trigger] doc.members()[i]).0 == key;
    assert(doc is Object);
    assert(!known_keys(doc.members(), config_fields()));
}

/// A text whose document has a top-level member that the schema does not
/// know fails validation for every family.
pub proof fn lemma_unknown_member_text_fails(
    input: Seq<char>,
    language: Seq<char>,
    key: Seq<char>,
)
    requires
        parse_outcome(input) matches Ok(doc) && doc.has_member(key),
        !config_fields().contains(key),
    ensures
        validation_outcome(input, language) is Err,
{
    let schema = written(schema_model(family_of(language)));
    let doc = parse_outcome(input)->Ok_0;
    lemma_unknown_member_fails(doc, violations_of(schema, doc), family_of(language), key);
}

/// A configuration comes out of validation only for a document of the
/// family's closed schema, of which the validator reported nothing.
pub proof fn lemma_valid_means_conforming(input: Seq<char>, language: Seq<char>)
    requires
        validation_outcome(input, language) is Ok,
    ensures
        parse_outcome(input) matches Ok(doc) && conformance(doc, family_of(language)) == Ok::<
            TestConfigView,
            Mismatch,
        >(validation_outcome(input, language)->Ok_0) && violations_of(
            written(schema_model(family_of(language))),
            doc,
        ).len() == 0,
{
}

/// Whether a field is absent or a list of strings.
pub open spec fn is_optional_list(members: Seq<(Seq<char>, Json)>, key: Seq<char>) -> bool {
    match lookup(members, key) {
        None => true,
        Some(Json::Array(items)) => all_text(items),
        Some(_) => false,
    }
}

/// The closed schema of a family, said at once: the document is an object
/// with no member but the six fields; its test command is a string; its
/// log parser is a string and one of the family's; each command list, if
/// there, is a list of strings; the image settings, if there, are an
/// object of strings under names that the family allows.
pub open spec fn fits_schema(doc: Json, family: LanguageFamily) -> bool {
    &&& doc is Object
    &&& known_keys(doc.members(), config_fields())
    &&& lookup(doc.members(), TEST_CMD@) matches Some(Json::Text(_))
    &&& lookup(doc.members(), LOG_PARSER_NAME@) matches Some(Json::Text(parser))
        && allowed_parsers(family).contains(parser)
    &&& is_optional_list(doc.members(), PRE_INSTALL@)
    &&& is_optional_list(doc.members(), INSTALL@)
    &&& is_optional_list(doc.members(), BUILD@)
    &&& match lookup(doc.members(), DOCKER_SPECS@) {
        None => true,
        Some(Json::Object(settings)) => known_keys(settings, allowed_settings(family))
            && all_text_values(settings),
        Some(_) => false,
    }
}

/// A document reads into the typed configuration of a family exactly if
/// it fits the family's closed schema.
pub proof fn lemma_conformance_is_the_closed_schema(doc: Json, family: LanguageFamily)
    ensures
        conformance(doc, family) is Ok <==> fits_schema(doc, family),
{
}

} // verus!
