//! The launcher's configuration: five required string fields read from a
//! flat TOML document.

use vstd::prelude::*;
use crate::toml_io::{
    toml_string_fields,
    toml_parse_error_text,
    value_string_fields,
    parse_document,
    parse_error_text,
    value_get,
    value_as_str,
};

verus! {

/// The launcher's configuration, loaded once and immutable thereafter.
///
/// Every field is a required string:
/// - `directory`: the working directory switched to before any command runs;
/// - `environment`: the name of the managed environment to activate;
/// - `script`: the application entry point handed to the application runner;
/// - `env_file`: the environment-specification file for create/update;
/// - `conda_path`: the filesystem root of the environment-manager installation.
pub struct Config {
    pub directory: String,
    pub environment: String,
    pub script: String,
    pub env_file: String,
    pub conda_path: String,
}

/// The mathematical contents of a [`Config`]: each field as a sequence of
/// characters.
#[verifier::ext_equal]
pub struct ConfigModel {
    pub directory: Seq<char>,
    pub environment: Seq<char>,
    pub script: Seq<char>,
    pub env_file: Seq<char>,
    pub conda_path: Seq<char>,
}

impl View for Config {
    type V = ConfigModel;

    open spec fn view(&self) -> ConfigModel {
        ConfigModel {
            directory: self.directory@,
            environment: self.environment@,
            script: self.script@,
            env_file: self.env_file@,
            conda_path: self.conda_path@,
        }
    }
}

/// Why loading the configuration failed.
///
/// `Missing` is terminal and interactive: the launcher prompts once and then
/// exits with a non-zero status. `Read` and `Parse` carry the human-readable
/// description of what went wrong; both are terminal but non-interactive.
#[derive(Debug)]
pub enum ConfigError {
    Missing,
    Read(String),
    Parse(String),
}

/// Whether the map of string fields holds every key the configuration
/// requires.
pub open spec fn has_required_keys(m: Map<Seq<char>, Seq<char>>) -> bool {
    m.dom().contains("directory"@) && m.dom().contains("environment"@) && m.dom().contains(
        "script"@,
    ) && m.dom().contains("env_file"@) && m.dom().contains("conda_path"@)
}

/// The first required key, in declaration order, that the map of string
/// fields lacks; meaningful only when `has_required_keys` fails.
pub open spec fn first_missing_key(m: Map<Seq<char>, Seq<char>>) -> Seq<char> {
    if !m.dom().contains("directory"@) {
        "directory"@
    } else if !m.dom().contains("environment"@) {
        "environment"@
    } else if !m.dom().contains("script"@) {
        "script"@
    } else if !m.dom().contains("env_file"@) {
        "env_file"@
    } else {
        "conda_path"@
    }
}

/// The message reported when a required key is absent, or present with a
/// non-string value.
pub open spec fn missing_field_text(key: Seq<char>) -> Seq<char> {
    "Configuration field missing or not a string: "@ + key
}

/// The configuration assembled from a complete map of string fields.
pub open spec fn config_of_fields(m: Map<Seq<char>, Seq<char>>) -> ConfigModel {
    ConfigModel {
        directory: m["directory"@],
        environment: m["environment"@],
        script: m["script"@],
        env_file: m["env_file"@],
        conda_path: m["conda_path"@],
    }
}

/// What parsing a configuration document yields: the configuration's
/// contents when the document is valid TOML with all five string fields,
/// and the text of the parse error otherwise.
pub open spec fn spec_parse_config(s: Seq<char>) -> Result<ConfigModel, Seq<char>> {
    match toml_string_fields(s) {
        Some(m) => if has_required_keys(m) {
            Ok(config_of_fields(m))
        } else {
            Err(missing_field_text(first_missing_key(m)))
        },
        None => Err(toml_parse_error_text(s)),
    }
}

/// Look a key up in the parsed document and return its string value, or
/// `None` when the key is absent or its value is not a string.
fn get_string_field(doc: &toml::Value, key: &str) -> (r: Option<String>)
    ensures
        match r {
            Some(s) => value_string_fields(*doc).dom().contains(key@) && s@ == value_string_fields(
                *doc,
            )[key@],
            None => !value_string_fields(*doc).dom().contains(key@),
        },
{
    match value_get(doc, key) {
        Some(w) => match value_as_str(w) {
            Some(s) => Some(s.to_owned()),
            None => None,
        },
        None => None,
    }
}

/// The message reported for a required key that is absent or not a string.
fn missing_field_message(key: &str) -> (r: String)
    ensures
        r@ == missing_field_text(key@),
{
    let mut s = "Configuration field missing or not a string: ".to_owned();
    s.append(key);
    s
}

/// Parse the text of the configuration file. Returns the configuration
/// exactly when the text is a valid TOML document whose top level holds
/// all five required keys with string values; otherwise a `Parse` error
/// carrying the description of what was wrong.
pub fn parse_config(content: &str) -> (r: Result<Config, ConfigError>)
    ensures
        match spec_parse_config(content@) {
            Ok(cm) => r matches Ok(c) && c@ == cm,
            Err(msg) => r matches Err(e) && e matches ConfigError::Parse(t) && t@ == msg,
        },
{
    let doc = match parse_document(content) {
        Ok(v) => v,
        Err(e) => {
            return Err(ConfigError::Parse(parse_error_text(&e)));
        },
    };
    let directory = match get_string_field(&doc, "directory") {
        Some(s) => s,
        None => {
            return Err(ConfigError::Parse(missing_field_message("directory")));
        },
    };
    let environment = match get_string_field(&doc, "environment") {
        Some(s) => s,
        None => {
            return Err(ConfigError::Parse(missing_field_message("environment")));
        },
    };
    let script = match get_string_field(&doc, "script") {
        Some(s) => s,
        None => {
            return Err(ConfigError::Parse(missing_field_message("script")));
        },
    };
    let env_file = match get_string_field(&doc, "env_file") {
        Some(s) => s,
        None => {
            return Err(ConfigError::Parse(missing_field_message("env_file")));
        },
    };
    let conda_path = match get_string_field(&doc, "conda_path") {
        Some(s) => s,
        None => {
            return Err(ConfigError::Parse(missing_field_message("conda_path")));
        },
    };
    Ok(Config { directory, environment, script, env_file, conda_path })
}

} // verus!
