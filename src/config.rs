//! Application configuration: where it lives and how its YAML text is read.
use vstd::prelude::*;
use crate::json::{
    as_elements, as_text, json_elements, json_member, json_text, member, parse_yaml, unsigned_field,
    unsigned_member, yaml_document,
};
use crate::text::{copy_texts, join};

verus! {

/// Image handling settings.
pub struct ImageConfig {
    pub supported_formats: Vec<String>,
    pub max_file_size_mb: u64,
}

/// The application configuration.
pub struct AppConfig {
    pub image: ImageConfig,
}

pub struct ConfigView {
    pub supported_formats: Seq<Seq<char>>,
    pub max_file_size_mb: u64,
}

pub open spec fn texts_view(v: Seq<String>) -> Seq<Seq<char>> {
    v.map_values(|t: String| t@)
}

impl View for AppConfig {
    type V = ConfigView;

    open spec fn view(&self) -> ConfigView {
        ConfigView {
            supported_formats: texts_view(self.image.supported_formats@),
            max_file_size_mb: self.image.max_file_size_mb,
        }
    }
}

/// The configuration shared with the command handlers.
pub struct ConfigState(pub AppConfig);

/// Why the configuration could not be had.
pub enum ConfigError {
    /// No project directory was configured.
    MissingProjectPath,
    /// No file exists at the configuration path.
    NotFound(String),
    /// The file is not a YAML document of the expected shape.
    Invalid,
}

pub open spec fn config_suffix() -> Seq<char> {
    "src-tauri/config/config.yaml"@
}

/// The configuration file under a project directory, joined as a path.
pub open spec fn config_path_spec(project: Seq<char>) -> Seq<char> {
    if project.len() == 0 || project.last() == '/' {
        project + config_suffix()
    } else {
        project + seq!['/'] + config_suffix()
    }
}

/// The texts of a sequence of values, when every one of them is a string.
pub open spec fn texts_in(s: Seq<serde_json::Value>) -> Option<Seq<Seq<char>>>
    decreases s.len(),
{
    if s.len() == 0 {
        Some(Seq::empty())
    } else {
        match (texts_in(s.drop_last()), json_text(s.last())) {
            (Some(rest), Some(t)) => Some(rest.push(t)),
            _ => None,
        }
    }
}

/// The configuration a document describes: an `image` object with a list
/// of strings `supported_formats` and an unsigned `max_file_size_mb`.
pub open spec fn config_of(v: serde_json::Value) -> Option<ConfigView> {
    match json_member(v, "image"@) {
        Some(image) => match json_member(image, "supported_formats"@) {
            Some(f) => match json_elements(f) {
                Some(items) => match (texts_in(items), unsigned_member(image, "max_file_size_mb"@)) {
                    (Some(formats), Some(max)) => Some(
                        ConfigView { supported_formats: formats, max_file_size_mb: max },
                    ),
                    _ => None,
                },
                None => None,
            },
            None => None,
        },
        None => None,
    }
}

pub open spec fn config_text_spec(text: Seq<char>) -> Option<ConfigView> {
    match yaml_document(text) {
        Some(v) => config_of(v),
        None => None,
    }
}

/// The path of the configuration file under the project directory.
pub fn config_path(project_path: &str) -> (r: String)
    ensures
        r@ == config_path_spec(project_path@),
{
    let n = project_path.unicode_len();
    if n == 0 || project_path.get_char(n - 1) == '/' {
        join(project_path, "src-tauri/config/config.yaml")
    } else {
        let dir = join(project_path, "/");
        let r = join(dir.as_str(), "src-tauri/config/config.yaml");
        proof {
            reveal_strlit("/");
        }
        assert(r@ =~= project_path@ + seq!['/'] + config_suffix());
        r
    }
}

/// The configuration path for the configured project directory, if any.
pub fn get_config_path(project_path: Option<String>) -> (r: Result<String, ConfigError>)
    ensures
        match project_path {
            Some(p) => r matches Ok(path) && path@ == config_path_spec(p@),
            None => r matches Err(ConfigError::MissingProjectPath),
        },
{
    match project_path {
        Some(p) => Ok(config_path(p.as_str())),
        None => Err(ConfigError::MissingProjectPath),
    }
}

/// The texts of `values`, when every one of them is a string.
pub fn collect_texts(values: &Vec<serde_json::Value>) -> (r: Option<Vec<String>>)
    ensures
        match r {
            Some(v) => texts_in(values@) == Some(texts_view(v@)),
            None => texts_in(values@).is_none(),
        },
{
    let mut out: Vec<String> = Vec::new();
    let mut i: usize = 0;
    while i < values.len()
        invariant
            i <= values@.len(),
            texts_in(values@.subrange(0, i as int)) == Some(texts_view(out@)),
        decreases values@.len() - i,
    {
        assert(values@.subrange(0, i as int + 1).drop_last() =~= values@.subrange(0, i as int));
        match as_text(&values[i]) {
            Some(t) => {
                out.push(t);
                assert(texts_view(out@) =~= texts_view(out@.drop_last()).push(out@.last()@));
            },
            None => {
                proof {
                    lemma_texts_in_prefix_none(values@, i as int + 1);
                }
                return None;
            },
        }
        i = i + 1;
    }
    assert(values@.subrange(0, values@.len() as int) =~= values@);
    Some(out)
}

/// A prefix with a non-string spoils every longer prefix.
proof fn lemma_texts_in_prefix_none(s: Seq<serde_json::Value>, k: int)
    requires
        0 <= k <= s.len(),
        texts_in(s.subrange(0, k)).is_none(),
    ensures
        texts_in(s).is_none(),
    decreases s.len() - k,
{
    if k < s.len() {
        assert(s.subrange(0, k + 1).drop_last() =~= s.subrange(0, k));
        lemma_texts_in_prefix_none(s, k + 1);
    } else {
        assert(s.subrange(0, k) =~= s);
    }
}

impl AppConfig {
    /// Reads the configuration from YAML text.
    pub fn from_yaml_str(text: &str) -> (r: Result<AppConfig, ConfigError>)
        ensures
            match config_text_spec(text@) {
                Some(c) => r matches Ok(cfg) && cfg@ == c,
                None => r matches Err(ConfigError::Invalid),
            },
    {
        let v = match parse_yaml(text) {
            Some(v) => v,
            None => return Err(ConfigError::Invalid),
        };
        let image = match member(&v, "image") {
            Some(i) => i,
            None => return Err(ConfigError::Invalid),
        };
        let formats = match member(&image, "supported_formats") {
            Some(f) => match as_elements(&f) {
                Some(items) => collect_texts(&items),
                None => None,
            },
            None => None,
        };
        let max = unsigned_field(&image, "max_file_size_mb");
        match (formats, max) {
            (Some(supported_formats), Some(max_file_size_mb)) => Ok(
                AppConfig { image: ImageConfig { supported_formats, max_file_size_mb } },
            ),
            _ => Err(ConfigError::Invalid),
        }
    }
}

/// Loads the configuration: the project directory must be known, the file
/// under it must exist (`contents` is `None` when it does not), and its
/// text must describe a configuration.
pub fn load_config(project_path: Option<String>, contents: Option<String>) -> (r: Result<AppConfig, ConfigError>)
    ensures
        match project_path {
            None => r matches Err(ConfigError::MissingProjectPath),
            Some(p) => match contents {
                None => r matches Err(ConfigError::NotFound(path)) && path@ == config_path_spec(p@),
                Some(t) => match config_text_spec(t@) {
                    Some(c) => r matches Ok(cfg) && cfg@ == c,
                    None => r matches Err(ConfigError::Invalid),
                },
            },
        },
{
    let path = match get_config_path(project_path) {
        Ok(path) => path,
        Err(e) => return Err(e),
    };
    match contents {
        Some(t) => AppConfig::from_yaml_str(t.as_str()),
        None => Err(ConfigError::NotFound(path)),
    }
}

/// The image formats the configuration accepts.
pub fn get_supported_formats(config: &ConfigState) -> (r: Result<Vec<String>, String>)
    ensures
        r matches Ok(f) && texts_view(f@) == config.0@.supported_formats,
{
    Ok(copy_texts(&config.0.image.supported_formats))
}

} // verus!
