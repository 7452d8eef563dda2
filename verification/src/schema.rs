//! The closed schema of a configuration document, one per language family,
//! and the way to `jsonschema`, which reports how a document breaks it.

use vstd::prelude::*;
use crate::json::{members_view, items_view, tree_model, written, Json, JsonValue};
use crate::language::{family_of, LanguageFamily};

verus! {

/// The field that holds the test command.
pub const TEST_CMD: &'static str = "test_cmd";

/// The field that names the log parser.
pub const LOG_PARSER_NAME: &'static str = "log_parser_name";

/// The field that lists the commands to run before installation.
pub const PRE_INSTALL: &'static str = "pre_install";

/// The field that lists the commands of the installation step.
pub const INSTALL: &'static str = "install";

/// The field that lists the commands of the build step.
pub const BUILD: &'static str = "build";

/// The field that holds the image settings.
pub const DOCKER_SPECS: &'static str = "docker_specs";

/// The image setting for the Ubuntu version.
pub const UBUNTU_VERSION: &'static str = "ubuntu_version";

/// The image setting for the Node.js version.
pub const NODE_VERSION: &'static str = "node_version";

/// The image setting for the pnpm version.
pub const PNPM_VERSION: &'static str = "pnpm_version";

/// The image setting for the Rust version.
pub const RUST_VERSION: &'static str = "rust_version";

/// The views of a sequence of string slices.
pub open spec fn strs(items: Seq<&'static str>) -> Seq<Seq<char>> {
    Seq::new(items.len(), |i: int| items[i]@)
}

/// The fields a configuration document may have.
pub open spec fn config_fields() -> Seq<Seq<char>> {
    seq![TEST_CMD@, LOG_PARSER_NAME@, PRE_INSTALL@, INSTALL@, BUILD@, DOCKER_SPECS@]
}

/// The log parsers a family knows.
pub open spec fn allowed_parsers(family: LanguageFamily) -> Seq<Seq<char>> {
    match family {
        LanguageFamily::Rust => seq!["cargo"@, "agentic"@],
        LanguageFamily::CFamily => seq!["doctest"@, "googletest"@, "agentic"@],
        LanguageFamily::JavaScript => seq![
            "jest"@,
            "mocha"@,
            "vitest"@,
            "karma"@,
            "tap"@,
            "calypso"@,
            "chartjs"@,
            "marked"@,
            "p5js"@,
            "agentic"@,
        ],
    }
}

/// The image settings a family lets a document set.
pub open spec fn allowed_settings(family: LanguageFamily) -> Seq<Seq<char>> {
    match family {
        LanguageFamily::Rust => seq![RUST_VERSION@],
        LanguageFamily::CFamily => seq![UBUNTU_VERSION@],
        LanguageFamily::JavaScript => seq![UBUNTU_VERSION@, NODE_VERSION@, PNPM_VERSION@],
    }
}

/// What the schema tells a reader about an image setting.
pub open spec fn setting_note(setting: Seq<char>) -> Seq<char> {
    if setting == RUST_VERSION@ {
        "Rust version to use"@
    } else if setting == UBUNTU_VERSION@ {
        "Ubuntu version for the Docker image"@
    } else if setting == NODE_VERSION@ {
        "Node.js version to install"@
    } else {
        "PNPM version to install"@
    }
}

/// The schema of a string, with a note for the reader.
pub open spec fn string_schema(note: Seq<char>) -> Json {
    Json::Object(seq![("type"@, Json::Text("string"@)), ("description"@, Json::Text(note))])
}

/// Each text as a JSON string.
pub open spec fn text_items(items: Seq<Seq<char>>) -> Seq<Json> {
    Seq::new(items.len(), |i: int| Json::Text(items[i]))
}

/// The schema of a string that must be one of `options`.
pub open spec fn choice_schema(options: Seq<Seq<char>>, note: Seq<char>) -> Json {
    Json::Object(
        seq![
            ("type"@, Json::Text("string"@)),
            ("enum"@, Json::Array(text_items(options))),
            ("description"@, Json::Text(note)),
        ],
    )
}

/// The schema of a list of strings.
pub open spec fn list_schema(note: Seq<char>) -> Json {
    Json::Object(
        seq![
            ("type"@, Json::Text("array"@)),
            ("items"@, Json::Object(seq![("type"@, Json::Text("string"@))])),
            ("description"@, Json::Text(note)),
        ],
    )
}

/// One string schema for each setting, under the setting's name.
pub open spec fn setting_schemas(settings: Seq<Seq<char>>) -> Seq<(Seq<char>, Json)> {
    Seq::new(settings.len(), |i: int| (settings[i], string_schema(setting_note(settings[i]))))
}

/// The schema of an object that may hold `settings`, each a string, and
/// nothing else.
pub open spec fn settings_schema(settings: Seq<Seq<char>>) -> Json {
    Json::Object(
        seq![
            ("type"@, Json::Text("object"@)),
            ("properties"@, Json::Object(setting_schemas(settings))),
            ("required"@, Json::Array(Seq::empty())),
            ("additionalProperties"@, Json::Bool(false)),
        ],
    )
}

/// The schemas of the six fields of a configuration document.
pub open spec fn field_schemas(family: LanguageFamily) -> Seq<(Seq<char>, Json)> {
    seq![
        (
            TEST_CMD@,
            string_schema(
                "The test command without any placeholders, all tests are getting appended to the end of this test command."@,
            ),
        ),
        (
            LOG_PARSER_NAME@,
            choice_schema(
                allowed_parsers(family),
                "A log parser is used to parse the textual result of the tests and determine how many succeeded, how many failed..."@,
            ),
        ),
        (
            PRE_INSTALL@,
            list_schema("List of regular shell commands to run before the installation step."@),
        ),
        (
            INSTALL@,
            list_schema("List of regular shell commands to run in the installation step."@),
        ),
        (BUILD@, list_schema("List of regular shell commands to run in the build step."@)),
        (DOCKER_SPECS@, settings_schema(allowed_settings(family))),
    ]
}

/// The schema of a family's configuration documents: an object with the
/// test command and the log parser, which it must have, the three command
/// lists and the image settings, which it may have, and nothing else.
pub open spec fn schema_model(family: LanguageFamily) -> Json {
    Json::Object(
        seq![
            ("type"@, Json::Text("object"@)),
            ("properties"@, Json::Object(field_schemas(family))),
            ("required"@, Json::Array(seq![Json::Text(TEST_CMD@), Json::Text(LOG_PARSER_NAME@)])),
            ("additionalProperties"@, Json::Bool(false)),
        ],
    )
}

/// A JSON string.
fn text_value(text: &str) -> (value: JsonValue)
    ensures
        value@ == Json::Text(text@),
{
    JsonValue::Text(text.to_owned())
}

/// A member of an object.
fn entry(key: &str, value: JsonValue) -> (member: (String, JsonValue))
    ensures
        member.0@ == key@,
        member.1 == value,
{
    (key.to_owned(), value)
}

/// Builds the schema of a string.
fn build_string_schema(note: &str) -> (schema: JsonValue)
    ensures
        schema@ == string_schema(note@),
{
    let members = vec![entry("type", text_value("string")), entry("description", text_value(note))];
    assert(members_view(members@) =~= seq![
        ("type"@, Json::Text("string"@)),
        ("description"@, Json::Text(note@)),
    ]);
    JsonValue::Object(members)
}

/// Builds the schema of a string that must be one of `options`.
fn build_choice_schema(options: &Vec<&'static str>, note: &str) -> (schema: JsonValue)
    ensures
        schema@ == choice_schema(strs(options@), note@),
{
    let mut items: Vec<JsonValue> = Vec::new();
    let mut i: usize = 0;
    while i < options.len()
        invariant
            i <= options.len(),
            items@.len() == i,
            forall|k: int| 0 <= k < i ==> (#[trigger] items@[k])@ == Json::Text(options@[k]@),
        decreases options.len() - i,
    {
        items.push(text_value(options[i]));
        i = i + 1;
    }
    assert(items_view(items@) =~= text_items(strs(options@)));
    let members = vec![
        entry("type", text_value("string")),
        entry("enum", JsonValue::Array(items)),
        entry("description", text_value(note)),
    ];
    assert(members_view(members@) =~= seq![
        ("type"@, Json::Text("string"@)),
        ("enum"@, Json::Array(text_items(strs(options@)))),
        ("description"@, Json::Text(note@)),
    ]);
    JsonValue::Object(members)
}

/// Builds the schema of a list of strings.
fn build_list_schema(note: &str) -> (schema: JsonValue)
    ensures
        schema@ == list_schema(note@),
{
    let item = vec![entry("type", text_value("string"))];
    assert(members_view(item@) =~= seq![("type"@, Json::Text("string"@))]);
    let members = vec![
        entry("type", text_value("array")),
        entry("items", JsonValue::Object(item)),
        entry("description", text_value(note)),
    ];
    assert(members_view(members@) =~= seq![
        ("type"@, Json::Text("array"@)),
        ("items"@, Json::Object(seq![("type"@, Json::Text("string"@))])),
        ("description"@, Json::Text(note@)),
    ]);
    JsonValue::Object(members)
}

/// The note on an image setting.
fn note_on(setting: &str) -> (note: &'static str)
    ensures
        note@ == setting_note(setting@),
{
    if crate::text::same_text(setting, RUST_VERSION) {
        "Rust version to use"
    } else if crate::text::same_text(setting, UBUNTU_VERSION) {
        "Ubuntu version for the Docker image"
    } else if crate::text::same_text(setting, NODE_VERSION) {
        "Node.js version to install"
    } else {
        "PNPM version to install"
    }
}

/// Builds the schema of the image settings.
fn build_settings_schema(settings: &Vec<&'static str>) -> (schema: JsonValue)
    ensures
        schema@ == settings_schema(strs(settings@)),
{
    let mut fields: Vec<(String, JsonValue)> = Vec::new();
    let mut i: usize = 0;
    while i < settings.len()
        invariant
            i <= settings.len(),
            fields@.len() == i,
            forall|k: int|
                0 <= k < i ==> (#[trigger] fields@[k]).0@ == settings@[k]@ && fields@[k].1@
                    == string_schema(setting_note(settings@[k]@)),
        decreases settings.len() - i,
    {
        fields.push(entry(settings[i], build_string_schema(note_on(settings[i]))));
        i = i + 1;
    }
    assert(members_view(fields@) =~= setting_schemas(strs(settings@)));
    let none: Vec<JsonValue> = Vec::new();
    assert(items_view(none@) =~= Seq::<Json>::empty());
    let members = vec![
        entry("type", text_value("object")),
        entry("properties", JsonValue::Object(fields)),
        entry("required", JsonValue::Array(none)),
        entry("additionalProperties", JsonValue::Bool(false)),
    ];
    assert(members_view(members@) =~= seq![
        ("type"@, Json::Text("object"@)),
        ("properties"@, Json::Object(setting_schemas(strs(settings@)))),
        ("required"@, Json::Array(Seq::empty())),
        ("additionalProperties"@, Json::Bool(false)),
    ]);
    JsonValue::Object(members)
}

/// The log parsers a family knows.
pub fn log_parsers(family: LanguageFamily) -> (names: Vec<&'static str>)
    ensures
        strs(names@) == allowed_parsers(family),
{
    let names = match family {
        LanguageFamily::Rust => vec!["cargo", "agentic"],
        LanguageFamily::CFamily => vec!["doctest", "googletest", "agentic"],
        LanguageFamily::JavaScript => vec![
            "jest",
            "mocha",
            "vitest",
            "karma",
            "tap",
            "calypso",
            "chartjs",
            "marked",
            "p5js",
            "agentic",
        ],
    };
    assert(strs(names@) =~= allowed_parsers(family));
    names
}

/// The image settings a family lets a document set.
pub fn image_settings(family: LanguageFamily) -> (names: Vec<&'static str>)
    ensures
        strs(names@) == allowed_settings(family),
{
    let names = match family {
        LanguageFamily::Rust => vec![RUST_VERSION],
        LanguageFamily::CFamily => vec![UBUNTU_VERSION],
        LanguageFamily::JavaScript => vec![UBUNTU_VERSION, NODE_VERSION, PNPM_VERSION],
    };
    assert(strs(names@) =~= allowed_settings(family));
    names
}

/// The schema of the configuration documents of the family that
/// `language` names.
pub fn get_json_schema(language: &str) -> (schema: JsonValue)
    ensures
        schema@ == schema_model(family_of(language@)),
{
    let family = LanguageFamily::from_name(language);
    let fields = vec![
        entry(
            TEST_CMD,
            build_string_schema(
                "The test command without any placeholders, all tests are getting appended to the end of this test command.",
            ),
        ),
        entry(
            LOG_PARSER_NAME,
            build_choice_schema(
                &log_parsers(family),
                "A log parser is used to parse the textual result of the tests and determine how many succeeded, how many failed...",
            ),
        ),
        entry(
            PRE_INSTALL,
            build_list_schema("List of regular shell commands to run before the installation step."),
        ),
        entry(
            INSTALL,
            build_list_schema("List of regular shell commands to run in the installation step."),
        ),
        entry(BUILD, build_list_schema("List of regular shell commands to run in the build step.")),
        entry(DOCKER_SPECS, build_settings_schema(&image_settings(family))),
    ];
    assert(members_view(fields@) =~= field_schemas(family));
    let required = vec![text_value(TEST_CMD), text_value(LOG_PARSER_NAME)];
    assert(items_view(required@) =~= seq![Json::Text(TEST_CMD@), Json::Text(LOG_PARSER_NAME@)]);
    let members = vec![
        entry("type", text_value("object")),
        entry("properties", JsonValue::Object(fields)),
        entry("required", JsonValue::Array(required)),
        entry("additionalProperties", JsonValue::Bool(false)),
    ];
    assert(members_view(members@) =~= seq![
        ("type"@, Json::Text("object"@)),
        ("properties"@, Json::Object(field_schemas(family))),
        ("required"@, Json::Array(seq![Json::Text(TEST_CMD@), Json::Text(LOG_PARSER_NAME@)])),
        ("additionalProperties"@, Json::Bool(false)),
    ]);
    JsonValue::Object(members)
}

/// A schema compiled by `jsonschema` into a validator.
#[verifier::external_type_specification]
#[verifier::external_body]
pub struct ExValidator(jsonschema::JSONSchema);

/// One way in which a document breaks the schema: where in the document,
/// as a JSON pointer (empty at the top level), and the validator's message.
#[derive(Debug, Clone, PartialEq, Eq)]
pub struct SchemaViolation {
    pub path: String,
    pub message: String,
}

impl View for SchemaViolation {
    type V = (Seq<char>, Seq<char>);

    open spec fn view(&self) -> (Seq<char>, Seq<char>) {
        (self.path@, self.message@)
    }
}

/// The views of a sequence of violations.
pub open spec fn violations_view(found: Seq<SchemaViolation>) -> Seq<(Seq<char>, Seq<char>)> {
    Seq::new(found.len(), |i: int| found[i]@)
}

/// Whether a document lacks the test command or the log parser, which
/// every schema of this library requires. A document that is no object
/// has no members and lacks both.
pub open spec fn lacks_required(doc: Json) -> bool {
    !doc.has_member(TEST_CMD@) || !doc.has_member(LOG_PARSER_NAME@)
}

/// Whether a tree holds one of the three schemas of this library.
pub open spec fn is_config_schema(tree: Json) -> bool {
    exists|family: LanguageFamily| tree == written(#[trigger] schema_model(family))
}

/// The message with which `jsonschema::JSONSchema::compile` refuses a
/// schema, if it refuses.
pub uninterp spec fn compile_refusal(schema: Json) -> Option<Seq<char>>;

/// The schema that a validator was compiled from.
pub uninterp spec fn compiled_schema(validator: jsonschema::JSONSchema) -> Json;

/// The errors that `jsonschema::JSONSchema::validate` reports of
/// `instance` with a validator compiled from `schema`, in the order in
/// which it reports them: for each the place in the instance and the
/// message.
pub uninterp spec fn violations_of(schema: Json, instance: Json) -> Seq<(Seq<char>, Seq<char>)>;

/// `jsonschema::JSONSchema::compile`, on one of this library's schemas
/// only: of no other schema is it claimed that the call returns. Whether
/// the schema compiles depends on the schema alone, and the validator is
/// one of that schema. A refusal comes back as the message it displays.
#[verifier::external_body]
pub(crate) fn compile_schema(schema: &serde_json::Value) -> (compiled: Result<
    jsonschema::JSONSchema,
    String,
>)
    requires
        is_config_schema(tree_model(*schema)),
    ensures
        match compiled {
            Ok(validator) => compile_refusal(tree_model(*schema)) is None && compiled_schema(
                validator,
            ) == tree_model(*schema),
            Err(message) => compile_refusal(tree_model(*schema)) == Some(message@),
        },
{
    match jsonschema::JSONSchema::compile(schema) {
        Ok(validator) => Ok(validator),
        Err(error) => Err(error.to_string()),
    }
}

/// `jsonschema::JSONSchema::validate`, with a validator of one of this
/// library's schemas. What it reports depends on the schema and the
/// instance alone. Each error comes back as its `instance_path` and the
/// message it displays, in the order in which the validator hands the
/// errors out.
///
/// One fact is claimed of what it reports. Each of this library's schemas
/// asks at its root for the type `object` and requires the test command
/// and the log parser. The validator of the keyword `type` reports an
/// instance that is no object, and the validator of the keyword
/// `required` reports each required member that an object lacks. So an
/// instance without one of the two members has at least one error.
#[verifier::external_body]
pub(crate) fn find_violations(
    validator: &jsonschema::JSONSchema,
    instance: &serde_json::Value,
) -> (found: Vec<SchemaViolation>)
    requires
        is_config_schema(compiled_schema(*validator)),
    ensures
        violations_view(found@) == violations_of(
            compiled_schema(*validator),
            tree_model(*instance),
        ),
        lacks_required(tree_model(*instance)) ==> found@.len() > 0,
{
    match validator.validate(instance) {
        Ok(()) => Vec::new(),
        Err(errors) => errors.map(
            |error|
                SchemaViolation {
                    path: error.instance_path.to_string(),
                    message: error.to_string(),
                },
        ).collect(),
    }
}

} // verus!
