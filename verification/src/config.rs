//! The settings of the downloader, read from a configuration text in INI form.

use crate::ini::{ini_parsed, ini_values, looked_up, new_ini, read_into, TEXT_LIMIT};
use crate::text::{
    chars_of, followed_by, join_path, joined, parse_u64_spec, string_of, SEPARATOR,
};
use crate::transfer::RetryBudget;
use configparser::ini::Ini;
use vstd::prelude::*;
use vstd::slice::slice_subrange;

verus! {

/// The settings of the downloader.
#[derive(Debug)]
pub struct Config {
    /// The address that the links of the catalog are relative to.
    pub iso_url: String,
    /// The name of the file that keeps the catalog between runs.
    pub list_files_json_name: String,
    /// Whether archives are fetched by the operator, in a browser.
    pub external_iso_download: bool,
    /// The number of attempts that a transfer may make.
    pub max_retries: u32,
    /// The rest between two attempts, in seconds.
    pub delay_between_retries: u64,
    /// The time that one request may take, in seconds, where one is set.
    pub timeout_request: Option<u64>,
    /// The working folder; a leading `~/` stands for the home directory.
    pub tmp_folder_name: String,
    /// The folder for archives and their contents, inside the working folder.
    pub tmp_iso_folder_name: String,
}

/// What a configuration text says, before defaults are filled in: each setting as it was
/// found, or `None` where the text has none that can be read.
#[derive(Debug)]
pub struct Settings {
    pub iso_url: Option<String>,
    pub list_files_json_name: Option<String>,
    pub external_iso: Option<u64>,
    pub max_retries: Option<u64>,
    pub delay_between_retries: Option<u64>,
    pub timeout_request: Option<u64>,
    pub tmp_folder_name: Option<String>,
    pub tmp_iso_folder_name: Option<String>,
}

/// Why a configuration was turned down.
#[derive(Debug)]
pub enum ConfigError {
    /// The text has more characters than the parser can be given.
    TooLong,
    /// The text is no configuration; `reason` is what the parser says of it.
    Unreadable { reason: String },
    /// The number of attempts is zero.
    NoRetries,
    /// The rest between attempts is zero.
    NoDelay,
}

impl ConfigError {
    /// What is said of the error.
    pub fn message(&self) -> (text: String)
        ensures
            match *self {
                ConfigError::TooLong => text@ == "Failed to load config: the text is too long"@,
                ConfigError::Unreadable { reason } => text@ == "Failed to load config: "@
                    + reason@,
                ConfigError::NoRetries => text@ == "MAX_RETRIES must be greater than 0"@,
                ConfigError::NoDelay => text@ == "DELAY_BETWEEN_RETRIES must be greater than 0"@,
            },
    {
        match self {
            ConfigError::TooLong => "Failed to load config: the text is too long".to_owned(),
            ConfigError::Unreadable { reason } => followed_by(
                "Failed to load config: ",
                reason.as_str(),
            ),
            ConfigError::NoRetries => "MAX_RETRIES must be greater than 0".to_owned(),
            ConfigError::NoDelay => "DELAY_BETWEEN_RETRIES must be greater than 0".to_owned(),
        }
    }
}

/// A configuration with its texts taken as sequences of characters.
pub struct ConfigView {
    pub iso_url: Seq<char>,
    pub list_files_json_name: Seq<char>,
    pub external_iso_download: bool,
    pub max_retries: u32,
    pub delay_between_retries: u64,
    pub timeout_request: Option<u64>,
    pub tmp_folder_name: Seq<char>,
    pub tmp_iso_folder_name: Seq<char>,
}

/// Settings with their texts taken as sequences of characters.
pub struct SettingsView {
    pub iso_url: Option<Seq<char>>,
    pub list_files_json_name: Option<Seq<char>>,
    pub external_iso: Option<u64>,
    pub max_retries: Option<u64>,
    pub delay_between_retries: Option<u64>,
    pub timeout_request: Option<u64>,
    pub tmp_folder_name: Option<Seq<char>>,
    pub tmp_iso_folder_name: Option<Seq<char>>,
}

/// The view of a text that may be missing.
pub open spec fn text_view(text: Option<String>) -> Option<Seq<char>> {
    match text {
        Some(s) => Some(s@),
        None => None,
    }
}

impl View for Config {
    type V = ConfigView;

    open spec fn view(&self) -> ConfigView {
        ConfigView {
            iso_url: self.iso_url@,
            list_files_json_name: self.list_files_json_name@,
            external_iso_download: self.external_iso_download,
            max_retries: self.max_retries,
            delay_between_retries: self.delay_between_retries,
            timeout_request: self.timeout_request,
            tmp_folder_name: self.tmp_folder_name@,
            tmp_iso_folder_name: self.tmp_iso_folder_name@,
        }
    }
}

impl View for Settings {
    type V = SettingsView;

    open spec fn view(&self) -> SettingsView {
        SettingsView {
            iso_url: text_view(self.iso_url),
            list_files_json_name: text_view(self.list_files_json_name),
            external_iso: self.external_iso,
            max_retries: self.max_retries,
            delay_between_retries: self.delay_between_retries,
            timeout_request: self.timeout_request,
            tmp_folder_name: text_view(self.tmp_folder_name),
            tmp_iso_folder_name: text_view(self.tmp_iso_folder_name),
        }
    }
}

/// The number of attempts where the configuration names none.
pub const DEFAULT_MAX_RETRIES: u64 = 5;

/// The rest between attempts, in seconds, where the configuration names none.
pub const DEFAULT_DELAY: u64 = 5;

/// One more than the greatest number of attempts that can be counted.
pub const ATTEMPTS_MODULUS: u64 = 0x1_0000_0000;

/// The text of the configuration file that is made where none is found.
pub const DEFAULT_CONFIG: &'static str = "[url]
ISO = https://myrient.erista.me/files/Redump/Sony%20-%20PlayStation%202/

[Download]
# Downloaded Game list fileName 
LIST_FILES_JSON_NAME = listPS2Titles.json 

# Download ISO file using navigator
EXTERNAL_ISO = 0 

MAX_RETRIES = 10
DELAY_BETWEEN_RETRIES = 10
TIMEOUT_REQUEST = 600

[folder]
TMP_FOLDER_NAME = ~/PS2-Games
TMP_ISO_FOLDER_NAME = iso_files
";

/// The name of the configuration file, and its path in the directory that the program
/// runs in.
pub const LOCAL_CONFIG: &'static str = "config.ini";

/// The path of the user's configuration file, from the home directory.
pub const USER_CONFIG: &'static str = ".config/ps2-redump-downloader/config.ini";

/// The path of the configuration file for every user of the machine.
pub const SYSTEM_CONFIG: &'static str = "/etc/ps2-redump-downloader/config.ini";

/// On Windows, the path of the user's configuration file, from the directory for
/// application data.
pub const WINDOWS_USER_CONFIG: &'static str = "ps2-redump-downloader/config.ini";

/// On Windows, the path of the configuration file for every user of the machine.
pub const WINDOWS_SYSTEM_CONFIG: &'static str = "C:/ProgramData/ps2-redump-downloader/config.ini";

/// The kind of system that the downloader runs on, as far as the places of its
/// configuration file depend on it.
#[derive(Clone, Copy, Debug, PartialEq, Eq)]
pub enum Platform {
    /// The user's directory is the home directory.
    Unix,
    /// The user's directory is the directory for application data.
    Windows,
}

/// `text` where there is one, else `default`.
pub open spec fn text_or(text: Option<Seq<char>>, default: Seq<char>) -> Seq<char> {
    match text {
        Some(s) => s,
        None => default,
    }
}

/// `number` where there is one, else `default`.
pub open spec fn number_or(number: Option<u64>, default: u64) -> u64 {
    match number {
        Some(n) => n,
        None => default,
    }
}

/// The configuration that settings stand for, each missing setting replaced by its
/// default. A number of attempts beyond 32 bits is cut down to its low 32 bits.
pub open spec fn configured(settings: SettingsView) -> ConfigView {
    ConfigView {
        iso_url: text_or(
            settings.iso_url,
            "https://myrient.erista.me/files/Redump/Sony%20-%20PlayStation%202/"@,
        ),
        list_files_json_name: text_or(settings.list_files_json_name, "listPS2Titles.json"@),
        external_iso_download: number_or(settings.external_iso, 0) != 0,
        max_retries: (number_or(settings.max_retries, DEFAULT_MAX_RETRIES) % ATTEMPTS_MODULUS) as u32,
        delay_between_retries: number_or(settings.delay_between_retries, DEFAULT_DELAY),
        timeout_request: settings.timeout_request,
        tmp_folder_name: text_or(settings.tmp_folder_name, "tmp"@),
        tmp_iso_folder_name: text_or(settings.tmp_iso_folder_name, "iso_files"@),
    }
}

/// Whether a configuration can be worked with: it allows at least one attempt and rests
/// for at least one second between attempts.
pub open spec fn acceptable(config: ConfigView) -> bool {
    config.max_retries > 0 && config.delay_between_retries > 0
}

/// The number stored under a section and a key: the value there, read as an unsigned
/// decimal number; `None` where there is no value or it is no such number.
pub open spec fn number_at(
    values: Map<(Seq<char>, Seq<char>), Seq<char>>,
    section: Seq<char>,
    key: Seq<char>,
) -> Option<u64> {
    match looked_up(values, section, key) {
        Some(text) => parse_u64_spec(text),
        None => None,
    }
}

/// The settings that the values of a configuration text hold.
pub open spec fn settings_of(values: Map<(Seq<char>, Seq<char>), Seq<char>>) -> SettingsView {
    SettingsView {
        iso_url: looked_up(values, "url"@, "ISO"@),
        list_files_json_name: looked_up(values, "Download"@, "LIST_FILES_JSON_NAME"@),
        external_iso: number_at(values, "Download"@, "EXTERNAL_ISO"@),
        max_retries: number_at(values, "Download"@, "MAX_RETRIES"@),
        delay_between_retries: number_at(values, "Download"@, "DELAY_BETWEEN_RETRIES"@),
        timeout_request: number_at(values, "Download"@, "TIMEOUT_REQUEST"@),
        tmp_folder_name: looked_up(values, "folder"@, "TMP_FOLDER_NAME"@),
        tmp_iso_folder_name: looked_up(values, "folder"@, "TMP_ISO_FOLDER_NAME"@),
    }
}

/// Whether `outcome` is what settings lead to: the configuration that they stand for where
/// it is acceptable, else the error that names what is wrong with it, the number of
/// attempts being looked at first.
pub open spec fn follows_from(outcome: Result<Config, ConfigError>, settings: SettingsView) -> bool {
    let wanted = configured(settings);
    match outcome {
        Ok(config) => acceptable(wanted) && config@ == wanted,
        Err(ConfigError::NoRetries) => wanted.max_retries == 0,
        Err(ConfigError::NoDelay) => wanted.max_retries > 0 && wanted.delay_between_retries == 0,
        Err(ConfigError::Unreadable { .. }) => false,
        Err(ConfigError::TooLong) => false,
    }
}

/// Whether `outcome` is what loading a configuration text leads to: an error for a text
/// beyond `TEXT_LIMIT`, which is not read; an error for a text that the parser turns
/// down; else what the settings in the text lead to.
pub open spec fn loaded_from(outcome: Result<Config, ConfigError>, text: Seq<char>) -> bool {
    if text.len() > TEXT_LIMIT {
        outcome matches Err(ConfigError::TooLong)
    } else {
        match ini_parsed(text) {
            Some(values) => follows_from(outcome, settings_of(values)),
            None => outcome matches Err(ConfigError::Unreadable { .. }),
        }
    }
}

/// Whether a configuration text loads.
pub open spec fn loads(text: Seq<char>) -> bool {
    text.len() <= TEXT_LIMIT && (ini_parsed(text) matches Some(values) && acceptable(
        configured(settings_of(values)),
    ))
}

/// `path` with a leading `~/` replaced by the home directory, where one is known.
pub open spec fn expanded(path: Seq<char>, home: Option<Seq<char>>) -> Seq<char> {
    match home {
        Some(h) => if path.len() >= 2 && path[0] == '~' && path[1] == SEPARATOR {
            joined(h, path.skip(2))
        } else {
            path
        },
        None => path,
    }
}

/// `path` with a leading `~/` replaced by the home directory, where one is known.
pub fn expand_tilde(path: &str, home: Option<&str>) -> (full: String)
    ensures
        full@ == expanded(
            path@,
            match home {
                Some(h) => Some(h@),
                None => None,
            },
        ),
{
    let chars = chars_of(path);
    match home {
        Some(h) => {
            if chars.len() >= 2 && chars[0] == '~' && chars[1] == SEPARATOR {
                let rest = slice_subrange(chars.as_slice(), 2, chars.len());
                assert(rest@ =~= path@.skip(2));
                let rest_text = string_of(rest);
                join_path(h, rest_text.as_str())
            } else {
                string_of(chars.as_slice())
            }
        },
        None => string_of(chars.as_slice()),
    }
}

fn text_of(value: Option<String>, default: &str) -> (text: String)
    ensures
        text@ == text_or(text_view(value), default@),
{
    match value {
        Some(s) => s,
        None => default.to_owned(),
    }
}

fn number_of(value: Option<u64>, default: u64) -> (number: u64)
    ensures
        number == number_or(value, default),
{
    match value {
        Some(n) => n,
        None => default,
    }
}

fn readable(number: Result<Option<u64>, String>) -> (found: Option<u64>)
    ensures
        found == match number {
            Ok(n) => n,
            Err(_) => None,
        },
{
    match number {
        Ok(n) => n,
        Err(_) => None,
    }
}

impl Clone for Config {
    fn clone(&self) -> (copy: Self)
        ensures
            copy == *self,
    {
        Config {
            iso_url: self.iso_url.clone(),
            list_files_json_name: self.list_files_json_name.clone(),
            external_iso_download: self.external_iso_download,
            max_retries: self.max_retries,
            delay_between_retries: self.delay_between_retries,
            timeout_request: self.timeout_request,
            tmp_folder_name: self.tmp_folder_name.clone(),
            tmp_iso_folder_name: self.tmp_iso_folder_name.clone(),
        }
    }
}

impl Settings {
    /// The settings that an `Ini` holds. A number that cannot be read counts as missing.
    pub(crate) fn read(ini: &Ini) -> (settings: Settings)
        requires
            crate::ini::ini_is_plain(*ini),
        ensures
            settings@ == settings_of(ini_values(*ini)),
    {
        Settings {
            iso_url: ini.get("url", "ISO"),
            list_files_json_name: ini.get("Download", "LIST_FILES_JSON_NAME"),
            external_iso: readable(ini.getuint("Download", "EXTERNAL_ISO")),
            max_retries: readable(ini.getuint("Download", "MAX_RETRIES")),
            delay_between_retries: readable(ini.getuint("Download", "DELAY_BETWEEN_RETRIES")),
            timeout_request: readable(ini.getuint("Download", "TIMEOUT_REQUEST")),
            tmp_folder_name: ini.get("folder", "TMP_FOLDER_NAME"),
            tmp_iso_folder_name: ini.get("folder", "TMP_ISO_FOLDER_NAME"),
        }
    }
}

impl Config {
    /// The configuration that settings stand for, with defaults for what is missing. It is
    /// turned down where it allows no attempt, or no rest between attempts.
    pub fn from_settings(settings: Settings) -> (outcome: Result<Config, ConfigError>)
        ensures
            follows_from(outcome, settings@),
    {
        let attempts = number_of(settings.max_retries, DEFAULT_MAX_RETRIES) % ATTEMPTS_MODULUS;
        let config = Config {
            iso_url: text_of(
                settings.iso_url,
                "https://myrient.erista.me/files/Redump/Sony%20-%20PlayStation%202/",
            ),
            list_files_json_name: text_of(settings.list_files_json_name, "listPS2Titles.json"),
            external_iso_download: number_of(settings.external_iso, 0) != 0,
            max_retries: attempts as u32,
            delay_between_retries: number_of(settings.delay_between_retries, DEFAULT_DELAY),
            timeout_request: settings.timeout_request,
            tmp_folder_name: text_of(settings.tmp_folder_name, "tmp"),
            tmp_iso_folder_name: text_of(settings.tmp_iso_folder_name, "iso_files"),
        };
        if config.max_retries == 0 {
            Err(ConfigError::NoRetries)
        } else if config.delay_between_retries == 0 {
            Err(ConfigError::NoDelay)
        } else {
            Ok(config)
        }
    }

    /// Loads a configuration from the text of a configuration file.
    pub fn load(text: &str) -> (outcome: Result<Config, ConfigError>)
        ensures
            loaded_from(outcome, text@),
    {
        if text.unicode_len() > TEXT_LIMIT {
            return Err(ConfigError::TooLong);
        }
        let mut ini = new_ini();
        match read_into(&mut ini, text) {
            Ok(_) => Config::from_settings(Settings::read(&ini)),
            Err(reason) => Err(ConfigError::Unreadable { reason }),
        }
    }

    /// The budget of a transfer under this configuration.
    pub fn retry_budget(&self) -> (budget: RetryBudget)
        ensures
            budget.max_attempts == self.max_retries,
            budget.delay_between_attempts == self.delay_between_retries,
    {
        RetryBudget {
            max_attempts: self.max_retries,
            delay_between_attempts: self.delay_between_retries,
        }
    }

    /// The working folder.
    pub fn tmp_folder_path(&self, home: Option<&str>) -> (path: String)
        ensures
            path@ == self.spec_tmp_folder_path(
                match home {
                    Some(h) => Some(h@),
                    None => None,
                },
            ),
    {
        expand_tilde(self.tmp_folder_name.as_str(), home)
    }

    /// The folder for archives and their contents, inside the working folder.
    pub fn tmp_iso_folder_path(&self, home: Option<&str>) -> (path: String)
        ensures
            path@ == joined(
                self.spec_tmp_folder_path(
                    match home {
                        Some(h) => Some(h@),
                        None => None,
                    },
                ),
                self.tmp_iso_folder_name@,
            ),
    {
        let folder = expand_tilde(self.tmp_folder_name.as_str(), home);
        join_path(folder.as_str(), self.tmp_iso_folder_name.as_str())
    }

    /// The file that keeps the catalog between runs, inside the working folder.
    pub fn list_json_path(&self, home: Option<&str>) -> (path: String)
        ensures
            path@ == joined(
                self.spec_tmp_folder_path(
                    match home {
                        Some(h) => Some(h@),
                        None => None,
                    },
                ),
                self.list_files_json_name@,
            ),
    {
        let folder = expand_tilde(self.tmp_folder_name.as_str(), home);
        join_path(folder.as_str(), self.list_files_json_name.as_str())
    }

    /// The working folder, with a leading `~/` replaced by the home directory.
    pub open spec fn spec_tmp_folder_path(&self, home: Option<Seq<char>>) -> Seq<char> {
        expanded(self.tmp_folder_name@, home)
    }
}

/// The views of a list of texts.
pub open spec fn texts(list: Seq<String>) -> Seq<Seq<char>> {
    Seq::new(list.len(), |i: int| list[i]@)
}

/// The path of the user's configuration file, from the user's directory.
pub open spec fn user_config(platform: Platform) -> Seq<char> {
    match platform {
        Platform::Unix => USER_CONFIG@,
        Platform::Windows => WINDOWS_USER_CONFIG@,
    }
}

/// The path of the configuration file for every user of the machine.
pub open spec fn system_config(platform: Platform) -> Seq<char> {
    match platform {
        Platform::Unix => SYSTEM_CONFIG@,
        Platform::Windows => WINDOWS_SYSTEM_CONFIG@,
    }
}

/// The places where a configuration file is looked for, in the order in which they are
/// tried: the directory that the program runs in, the user's own directory where it is
/// known, and the machine's.
pub open spec fn candidates(platform: Platform, user: Option<Seq<char>>) -> Seq<Seq<char>> {
    match user {
        Some(directory) => seq![
            LOCAL_CONFIG@,
            joined(directory, user_config(platform)),
            system_config(platform),
        ],
        None => seq![LOCAL_CONFIG@, system_config(platform)],
    }
}

/// The place where a configuration file is made when none is found: the user's own
/// directory where it is known, else the directory that the program runs in.
pub open spec fn default_place(platform: Platform, user: Option<Seq<char>>) -> Seq<char> {
    match user {
        Some(directory) => joined(directory, user_config(platform)),
        None => LOCAL_CONFIG@,
    }
}

/// Whether what was found at a place is a configuration text that loads.
pub open spec fn usable(found: Option<String>) -> bool {
    found matches Some(text) && loads(text@)
}

fn user_config_of(platform: Platform) -> (path: &'static str)
    ensures
        path@ == user_config(platform),
{
    match platform {
        Platform::Unix => USER_CONFIG,
        Platform::Windows => WINDOWS_USER_CONFIG,
    }
}

fn system_config_of(platform: Platform) -> (path: &'static str)
    ensures
        path@ == system_config(platform),
{
    match platform {
        Platform::Unix => SYSTEM_CONFIG,
        Platform::Windows => WINDOWS_SYSTEM_CONFIG,
    }
}

/// The places where a configuration file is looked for, in the order in which they are
/// tried. `user` is the user's directory, where it is known.
pub fn candidate_paths(platform: Platform, user: Option<&str>) -> (paths: Vec<String>)
    ensures
        texts(paths@) == candidates(
            platform,
            match user {
                Some(directory) => Some(directory@),
                None => None,
            },
        ),
{
    let mut paths: Vec<String> = Vec::new();
    paths.push(LOCAL_CONFIG.to_owned());
    match user {
        Some(directory) => {
            paths.push(join_path(directory, user_config_of(platform)));
        },
        None => {},
    }
    paths.push(system_config_of(platform).to_owned());
    assert(texts(paths@) =~= candidates(
        platform,
        match user {
            Some(directory) => Some(directory@),
            None => None,
        },
    ));
    paths
}

/// The place where a configuration file is made when none is found.
pub fn default_config_path(platform: Platform, user: Option<&str>) -> (path: String)
    ensures
        path@ == default_place(
            platform,
            match user {
                Some(directory) => Some(directory@),
                None => None,
            },
        ),
{
    match user {
        Some(directory) => join_path(directory, user_config_of(platform)),
        None => LOCAL_CONFIG.to_owned(),
    }
}

/// A configuration and the file that it comes from.
#[derive(Debug)]
pub struct ConfigSource {
    /// The configuration.
    pub config: Config,
    /// The path of the file that it was loaded from.
    pub path: String,
    /// Where no file was found: the text to write to `path`, whose directory may have to
    /// be made first. `None` where the file is there already.
    pub to_create: Option<String>,
}

impl Config {
    /// Chooses the configuration to work with. `user` is the user's directory, where it is
    /// known; `found` holds, for each place of `candidate_paths` in order, the text of the
    /// file there, or `None` where there is none that can be read. The first text that loads is taken. Where none does, the
    /// default text is loaded and is to be written to the default place.
    pub fn load_or_create(
        platform: Platform,
        user: Option<&str>,
        found: &Vec<Option<String>>,
    ) -> (outcome: Result<ConfigSource, ConfigError>)
        ensures
            ({
                let user_view = match user {
                    Some(directory) => Some(directory@),
                    None => None,
                };
                let places = candidates(platform, user_view);
                let none_usable = forall|j: int|
                    0 <= j < found@.len() && j < places.len() ==> !usable(#[trigger] found@[j]);
                match outcome {
                    Ok(source) => {
                        ||| exists|i: int|
                            {
                                &&& 0 <= i < found@.len() && i < places.len()
                                &&& forall|j: int| 0 <= j < i ==> !usable(#[trigger] found@[j])
                                &&& (#[trigger] found@[i]) matches Some(text)
                                &&& loaded_from(Ok(source.config), text@)
                                &&& source.path@ == places[i]
                                &&& source.to_create is None
                            }
                        ||| {
                            &&& none_usable
                            &&& loaded_from(Ok(source.config), DEFAULT_CONFIG@)
                            &&& source.path@ == default_place(platform, user_view)
                            &&& source.to_create matches Some(text)
                            &&& text@ == DEFAULT_CONFIG@
                        }
                    },
                    Err(error) => none_usable && loaded_from(Err(error), DEFAULT_CONFIG@),
                }
            }),
    {
        let paths = candidate_paths(platform, user);
        let ghost places = texts(paths@);
        let mut i: usize = 0;
        while i < found.len() && i < paths.len()
            invariant
                i <= found.len(),
                i <= paths.len(),
                places == texts(paths@),
                places == candidates(
                    platform,
                    match user {
                        Some(directory) => Some(directory@),
                        None => None,
                    },
                ),
                forall|j: int| 0 <= j < i ==> !usable(#[trigger] found@[j]),
            decreases found.len() - i,
        {
            match &found[i] {
                Some(text) => {
                    match Config::load(text.as_str()) {
                        Ok(config) => {
                            let path = paths[i].clone();
                            assert(path@ == places[i as int]);
                            assert(found@[i as int] == Some(*text));
                            return Ok(ConfigSource { config, path, to_create: None });
                        },
                        Err(_) => {},
                    }
                },
                None => {},
            }
            i += 1;
        }
        let text = DEFAULT_CONFIG.to_owned();
        match Config::load(text.as_str()) {
            Ok(config) => Ok(
                ConfigSource { config, path: default_config_path(platform, user), to_create: Some(text) },
            ),
            Err(error) => Err(error),
        }
    }
}

} // verus!
