//! Reading where the smart-actions script lives from the output of
//! `which smart-actions.sh`.
use crate::domain::app_config::AppConfig;
use crate::text::{in_strip_class, is_unicode_whitespace, lemma_strip_surrounding, str_chars, strip_range, trim};
use vstd::prelude::*;
use vstd::string::StrSliceExecFns;
use vstd::utf8::{decode_utf8, valid_utf8};

verus! {

/// `Path::file_name` of the path written `path`: its last component,
/// unless that is `..` or there is none.
pub uninterp spec fn path_file_name(path: Seq<char>) -> Option<Seq<char>>;

/// `Path::parent` of the path written `path`: the path without its last
/// component, unless it is a root or empty.
pub uninterp spec fn path_parent(path: Seq<char>) -> Option<Seq<char>>;

/// `String::from_utf8`: claims, as its documentation states, that it
/// succeeds exactly on valid UTF-8 and then holds the decoded characters.
#[verifier::external_body]
fn string_from_utf8(bytes: Vec<u8>) -> (r: Option<String>)
    ensures
        r is Some <==> valid_utf8(bytes@),
        r matches Some(s) ==> s@ == decode_utf8(bytes@),
{
    String::from_utf8(bytes).ok()
}

/// `Path::file_name` of `Path::new(path)`, as text (a component of a path
/// made from text is always valid text): claims only that the result is
/// the named one.
#[verifier::external_body]
fn file_name_of(path: &str) -> (r: Option<String>)
    ensures
        match r {
            Some(s) => path_file_name(path@) == Some(s@),
            None => path_file_name(path@) is None,
        },
{
    std::path::Path::new(path).file_name().and_then(|f| f.to_str()).map(|f| f.to_owned())
}

/// `Path::parent` of `Path::new(path)`, as text: claims only that the
/// result is the named one.
#[verifier::external_body]
fn parent_of(path: &str) -> (r: Option<String>)
    ensures
        match r {
            Some(s) => path_parent(path@) == Some(s@),
            None => path_parent(path@) is None,
        },
{
    std::path::Path::new(path).parent().and_then(|p| p.to_str()).map(|p| p.to_owned())
}

/// Why the script's location could not be read.
#[derive(Debug, Clone, PartialEq, Eq)]
pub enum ConfigError {
    /// `which` failed or printed nothing: the script is not on the `PATH`.
    NotFound,
    /// `which` printed bytes that are not UTF-8.
    InvalidData,
    /// The printed path has no file name.
    NoFileName(String),
    /// The printed path has no folder.
    NoFolder(String),
}

/// What a found script path gives, from its file name and folder.
pub open spec fn config_from_path(
    path: Seq<char>,
    file_name: Option<Seq<char>>,
    folder: Option<Seq<char>>,
) -> Result<(Seq<char>, Seq<char>), ConfigErrorModel> {
    match file_name {
        None => Err(ConfigErrorModel::NoFileName(path)),
        Some(f) => match folder {
            None => Err(ConfigErrorModel::NoFolder(path)),
            Some(d) => Ok((d, f)),
        },
    }
}

/// What `which` reports gives: the folder and file name of the script, or
/// the reason there are none.
pub open spec fn config_from_which(success: bool, stdout: Seq<u8>) -> Result<
    (Seq<char>, Seq<char>),
    ConfigErrorModel,
> {
    if !success {
        Err(ConfigErrorModel::NotFound)
    } else if !valid_utf8(stdout) {
        Err(ConfigErrorModel::InvalidData)
    } else {
        let path = trim(decode_utf8(stdout));
        if path.len() == 0 {
            Err(ConfigErrorModel::NotFound)
        } else {
            config_from_path(path, path_file_name(path), path_parent(path))
        }
    }
}

/// The script's path is the whole of what `which` printed, with only the
/// whitespace around it removed: when `which` succeeds and prints valid
/// UTF-8 that reads as whitespace, then a path `path` that neither begins
/// nor ends with whitespace, then whitespace, the folder and file name are
/// those of `path` itself, whitespace inside it included.
pub proof fn lemma_which_output_is_the_path(
    stdout: Seq<u8>,
    before: Seq<char>,
    path: Seq<char>,
    after: Seq<char>,
)
    requires
        valid_utf8(stdout),
        decode_utf8(stdout) == before + path + after,
        forall|i: int| 0 <= i < before.len() ==> #[trigger] is_unicode_whitespace(before[i]),
        forall|i: int| 0 <= i < after.len() ==> #[trigger] is_unicode_whitespace(after[i]),
        path.len() > 0,
        !is_unicode_whitespace(path[0]),
        !is_unicode_whitespace(path.last()),
    ensures
        config_from_which(true, stdout) == config_from_path(
            path,
            path_file_name(path),
            path_parent(path),
        ),
{
    assert forall|i: int| 0 <= i < before.len() implies #[trigger] in_strip_class(before[i], false) by {
        assert(is_unicode_whitespace(before[i]));
    }
    assert forall|i: int| 0 <= i < after.len() implies #[trigger] in_strip_class(after[i], false) by {
        assert(is_unicode_whitespace(after[i]));
    }
    lemma_strip_surrounding(before, path, after, false);
    assert(trim(decode_utf8(stdout)) == path);
}

/// A `ConfigError` as values.
pub enum ConfigErrorModel {
    NotFound,
    InvalidData,
    NoFileName(Seq<char>),
    NoFolder(Seq<char>),
}

impl View for ConfigError {
    type V = ConfigErrorModel;

    open spec fn view(&self) -> ConfigErrorModel {
        match self {
            ConfigError::NotFound => ConfigErrorModel::NotFound,
            ConfigError::InvalidData => ConfigErrorModel::InvalidData,
            ConfigError::NoFileName(p) => ConfigErrorModel::NoFileName(p@),
            ConfigError::NoFolder(p) => ConfigErrorModel::NoFolder(p@),
        }
    }
}

/// A configuration result as values.
pub open spec fn config_result_view(r: Result<AppConfig, ConfigError>) -> Result<
    (Seq<char>, Seq<char>),
    ConfigErrorModel,
> {
    match r {
        Ok(c) => Ok((c.smart_actions_folder@, c.smart_actions_executable@)),
        Err(e) => Err(e@),
    }
}

/// The configuration that a found script path gives, from its file name
/// and its folder.
pub fn app_config_from_path(path: &str, file_name: Option<String>, folder: Option<String>) -> (r:
    Result<AppConfig, ConfigError>)
    ensures
        config_result_view(r) == config_from_path(
            path@,
            match file_name {
                Some(f) => Some(f@),
                None => None,
            },
            match folder {
                Some(d) => Some(d@),
                None => None,
            },
        ),
{
    let file_name = match file_name {
        Some(f) => f,
        None => {
            return Err(ConfigError::NoFileName(path.to_owned()));
        },
    };
    let folder = match folder {
        Some(d) => d,
        None => {
            return Err(ConfigError::NoFolder(path.to_owned()));
        },
    };
    Ok(AppConfig { smart_actions_folder: folder, smart_actions_executable: file_name })
}

/// Reads where the smart-actions script lives.
pub struct ConfigManager {}

impl ConfigManager {
    pub fn new() -> (r: Self) {
        Self {  }
    }

    /// The script's folder and file name, from whether `which
    /// smart-actions.sh` succeeded and what it printed.
    pub fn read_config(&self, which_succeeded: bool, which_stdout: Vec<u8>) -> (r: Result<
        AppConfig,
        ConfigError,
    >)
        ensures
            config_result_view(r) == config_from_which(which_succeeded, which_stdout@),
    {
        if !which_succeeded {
            return Err(ConfigError::NotFound);
        }
        let ghost bytes = which_stdout@;
        let text = match string_from_utf8(which_stdout) {
            Some(t) => t,
            None => {
                return Err(ConfigError::InvalidData);
            },
        };
        let chars = str_chars(text.as_str());
        let (a, b) = strip_range(&chars, 0, chars.len(), false);
        assert(chars@.subrange(0, chars.len() as int) =~= text@);
        if a == b {
            return Err(ConfigError::NotFound);
        }
        let path = text.as_str().substring_char(a, b).to_owned();
        let file_name = file_name_of(path.as_str());
        let folder = parent_of(path.as_str());
        app_config_from_path(path.as_str(), file_name, folder)
    }
}

} // verus!
