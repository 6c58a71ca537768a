//! The settings that the application keeps between runs: their defaults,
//! which values they may hold, and where they are stored.

use crate::error::{RoStartError, RoStartErrorView};
use crate::text::str_eq;
use vstd::prelude::*;

verus! {

/// The settings.
#[derive(Debug)]
pub struct AppConfig {
    pub app_name: String,
    pub version: String,
    /// Whether the application starts when the user logs in.
    pub autostart: bool,
    /// The language of the interface: a locale, or "auto" to follow the system.
    pub language: String,
}

/// The settings with their texts as sequences of characters.
pub struct AppConfigView {
    pub app_name: Seq<char>,
    pub version: Seq<char>,
    pub autostart: bool,
    pub language: Seq<char>,
}

impl View for AppConfig {
    type V = AppConfigView;

    open spec fn view(&self) -> AppConfigView {
        AppConfigView {
            app_name: self.app_name@,
            version: self.version@,
            autostart: self.autostart,
            language: self.language@,
        }
    }
}

/// What was found where the settings are stored.
#[derive(Debug)]
pub enum StoredConfig {
    /// There is no file.
    Missing,
    /// There is a file, and it could not be read.
    Unreadable,
    /// The file was read, and it does not hold settings.
    Malformed,
    /// The file holds these settings.
    Parsed(AppConfig),
}

/// A step of storing the settings that can fail.
#[derive(Debug, Clone, Copy, PartialEq, Eq, Structural)]
pub enum SaveStep {
    CreateDirectory,
    Serialize,
    Write,
    SetPermissions,
}

/// Where and how to store the settings.
#[derive(Debug)]
pub struct SavePlan {
    /// The directory to create if it is not there.
    pub directory: String,
    /// The file to write.
    pub file: String,
    /// The permission bits of the file: its owner may read and write it,
    /// nobody else may do anything with it.
    pub mode: u32,
}

/// The permission bits of the settings file.
pub const CONFIG_FILE_MODE: u32 = 0o600;

/// The settings of a fresh installation.
pub open spec fn default_config() -> AppConfigView {
    AppConfigView {
        app_name: "Ro-Start"@,
        version: "2.0.0"@,
        autostart: false,
        language: "auto"@,
    }
}

/// The values that the language may hold.
pub open spec fn valid_locales() -> Seq<Seq<char>> {
    seq![
        "auto"@,
        "en_US"@,
        "tr_TR"@,
        "de"@,
        "es"@,
        "fr"@,
        "it"@,
        "ja"@,
        "ru"@,
        "zh"@,
    ]
}

/// `items` in square brackets, each in double quotes, with a comma and a
/// space between two of them.
pub open spec fn quoted_list(items: Seq<Seq<char>>) -> Seq<char> {
    seq!['['] + quoted_items(items) + seq![']']
}

/// `items`, each in double quotes, with a comma and a space between two of
/// them.
pub open spec fn quoted_items(items: Seq<Seq<char>>) -> Seq<char>
    decreases items.len(),
{
    if items.len() == 0 {
        Seq::empty()
    } else if items.len() == 1 {
        seq!['"'] + items[0] + seq!['"']
    } else {
        quoted_items(items.drop_last()) + seq![',', ' '] + seq!['"'] + items.last() + seq!['"']
    }
}

/// Why `language` is refused.
pub open spec fn invalid_language(language: Seq<char>) -> Seq<char> {
    "Invalid language '"@ + language + "'. Valid values: "@ + quoted_list(valid_locales())
}

/// What `Path::join` of std makes of a path and a name: the path with the
/// name adjoined as its last component, by the rules for paths of the system
/// that the program is built for.
pub uninterp spec fn path_join(base: Seq<char>, name: Seq<char>) -> Seq<char>;

/// The directory of the settings below the user's configuration directory.
pub open spec fn config_directory(config_dir: Seq<char>) -> Seq<char> {
    path_join(config_dir, "ro-start"@)
}

/// The file of the settings below the user's configuration directory.
pub open spec fn config_file(config_dir: Seq<char>) -> Seq<char> {
    path_join(config_directory(config_dir), "config.toml"@)
}

impl SaveStep {
    /// Why storing the settings failed at this step.
    pub open spec fn reason(self) -> Seq<char> {
        match self {
            SaveStep::CreateDirectory => "Failed to create config directory"@,
            SaveStep::Serialize => "Failed to serialize config"@,
            SaveStep::Write => "Failed to write config file"@,
            SaveStep::SetPermissions => "Failed to set config file permissions"@,
        }
    }

    /// The error to report where this step failed.
    pub fn failure(&self) -> (e: RoStartError)
        ensures
            e@ == RoStartErrorView::Config(self.reason()),
    {
        match self {
            SaveStep::CreateDirectory => RoStartError::Config(
                String::from_str("Failed to create config directory"),
            ),
            SaveStep::Serialize => RoStartError::Config(
                String::from_str("Failed to serialize config"),
            ),
            SaveStep::Write => RoStartError::Config(
                String::from_str("Failed to write config file"),
            ),
            SaveStep::SetPermissions => RoStartError::Config(
                String::from_str("Failed to set config file permissions"),
            ),
        }
    }
}

/// `dirs::config_dir`: the user's configuration directory, where the
/// environment tells one, written as text. Nothing is claimed of it.
#[verifier::external_body]
fn user_config_dir() -> Option<String> {
    dirs::config_dir().map(|dir| dir.to_string_lossy().into_owned())
}

/// `Path::join` of std, on paths written as text. The result is a function
/// of the path and the name alone; nothing more is claimed of it.
#[verifier::external_body]
fn join_path(base: &str, name: &str) -> (r: String)
    ensures
        r@ == path_join(base@, name@),
{
    std::path::Path::new(base).join(name).to_string_lossy().into_owned()
}

/// `items` in square brackets, each in double quotes, with a comma and a
/// space between two of them.
fn quote_list(items: &Vec<&'static str>) -> (r: String)
    ensures
        r@ == quoted_list(Seq::new(items@.len(), |i: int| items@[i]@)),
{
    let ghost all = Seq::new(items@.len(), |i: int| items@[i]@);
    let mut r = String::from_str("[");
    let mut i: usize = 0;
    proof {
        reveal_strlit("[");
        reveal_strlit("]");
        reveal_strlit("\"");
        reveal_strlit(", ");
        assert(all.take(0) =~= Seq::<Seq<char>>::empty());
        assert(r@ =~= seq!['['] + quoted_items(all.take(0)));
    }
    while i < items.len()
        invariant
            i <= items.len(),
            all == Seq::new(items@.len(), |i: int| items@[i]@),
            r@ == seq!['['] + quoted_items(all.take(i as int)),
            "\""@ == seq!['"'],
            ", "@ == seq![',', ' '],
        decreases items.len() - i,
    {
        if i > 0 {
            r.append(", ");
        }
        r.append("\"");
        r.append(items[i]);
        r.append("\"");
        proof {
            let longer = all.take(i + 1);
            assert(longer.drop_last() =~= all.take(i as int));
            assert(longer.last() == items@[i as int]@);
            assert(r@ =~= seq!['['] + quoted_items(longer));
        }
        i += 1;
    }
    r.append("]");
    proof {
        assert(all.take(i as int) =~= all);
        assert("]"@ =~= seq![']']);
    }
    r
}

impl Default for AppConfig {
    /// The settings of a fresh installation.
    fn default() -> (r: AppConfig)
        ensures
            r@ == default_config(),
    {
        AppConfig {
            app_name: String::from_str("Ro-Start"),
            version: String::from_str("2.0.0"),
            autostart: false,
            language: String::from_str("auto"),
        }
    }
}

impl Clone for AppConfig {
    fn clone(&self) -> (r: AppConfig)
        ensures
            r@ == self@,
    {
        AppConfig {
            app_name: self.app_name.clone(),
            version: self.version.clone(),
            autostart: self.autostart,
            language: self.language.clone(),
        }
    }
}

impl AppConfig {
    /// The values that the language may hold.
    pub fn valid_locales() -> (r: Vec<&'static str>)
        ensures
            r@.len() == valid_locales().len(),
            forall|i: int| 0 <= i < r@.len() ==> (#[trigger] r@[i])@ == valid_locales()[i],
    {
        vec!["auto", "en_US", "tr_TR", "de", "es", "fr", "it", "ja", "ru", "zh"]
    }

    /// Whether the settings may be stored: the language is one of the valid
    /// values.
    pub open spec fn valid(&self) -> bool {
        valid_locales().contains(self.language@)
    }

    /// Checks the settings. They are refused exactly where the language is
    /// none of the valid values; the error then names the language and lists
    /// the valid values.
    pub fn validate(&self) -> (r: Result<(), RoStartError>)
        ensures
            self.valid() <==> r is Ok,
            r matches Err(e) ==> e@ == RoStartErrorView::Config(invalid_language(self.language@)),
    {
        let allowed = Self::valid_locales();
        let mut i: usize = 0;
        while i < allowed.len()
            invariant
                i <= allowed.len(),
                allowed@.len() == valid_locales().len(),
                forall|k: int|
                    0 <= k < allowed@.len() ==> (#[trigger] allowed@[k])@ == valid_locales()[k],
                forall|k: int| 0 <= k < i ==> valid_locales()[k] != self.language@,
            decreases allowed.len() - i,
        {
            if str_eq(self.language.as_str(), allowed[i]) {
                assert(valid_locales()[i as int] == self.language@);
                return Ok(());
            }
            i += 1;
        }
        let mut reason = String::from_str("Invalid language '");
        reason.append(self.language.as_str());
        reason.append("'. Valid values: ");
        reason.append(quote_list(&allowed).as_str());
        proof {
            assert(Seq::new(allowed@.len(), |i: int| allowed@[i]@) =~= valid_locales());
        }
        Err(RoStartError::Config(reason))
    }

    /// The file of the settings, given the user's configuration directory:
    /// `ro-start/config.toml` below it. Without such a directory there is no
    /// place for the settings.
    pub fn config_path_in(config_dir: Option<String>) -> (r: Result<String, RoStartError>)
        ensures
            match config_dir {
                Some(dir) => r matches Ok(path) && path@ == config_file(dir@),
                None => r matches Err(e) && e@ == RoStartErrorView::Config(
                    "Failed to get config directory"@,
                ),
            },
    {
        match config_dir {
            Some(dir) => {
                let directory = join_path(dir.as_str(), "ro-start");
                Ok(join_path(directory.as_str(), "config.toml"))
            },
            None => Err(RoStartError::Config(String::from_str("Failed to get config directory"))),
        }
    }

    /// The file of the settings: `ro-start/config.toml` below the user's
    /// configuration directory, which the environment decides. The only
    /// failure is that the environment tells no such directory.
    pub fn config_path() -> (r: Result<String, RoStartError>)
        ensures
            r matches Err(e) ==> e@ == RoStartErrorView::Config("Failed to get config directory"@),
            r matches Ok(path) ==> exists|dir: Seq<char>| path@ == config_file(dir),
    {
        Self::config_path_in(user_config_dir())
    }

    /// The settings to work with, given what was found where they are stored.
    /// No file gives the defaults, without complaint.
    pub fn load(stored: StoredConfig) -> (r: Result<AppConfig, RoStartError>)
        ensures
            match stored {
                StoredConfig::Missing => r matches Ok(config) && config@ == default_config(),
                StoredConfig::Unreadable => r matches Err(e) && e@ == RoStartErrorView::Config(
                    "Failed to read config file"@,
                ),
                StoredConfig::Malformed => r matches Err(e) && e@ == RoStartErrorView::Config(
                    "Failed to parse config file"@,
                ),
                StoredConfig::Parsed(found) => r matches Ok(config) && config@ == found@,
            },
    {
        match stored {
            StoredConfig::Missing => Ok(AppConfig::default()),
            StoredConfig::Unreadable => Err(
                RoStartError::Config(String::from_str("Failed to read config file")),
            ),
            StoredConfig::Malformed => Err(
                RoStartError::Config(String::from_str("Failed to parse config file")),
            ),
            StoredConfig::Parsed(found) => Ok(found),
        }
    }

    /// Where and how to store these settings, given the user's configuration
    /// directory. Settings that are not valid are refused before anything
    /// else is looked at.
    pub fn save_in(&self, config_dir: Option<String>) -> (r: Result<SavePlan, RoStartError>)
        ensures
            !self.valid() ==> (r matches Err(e) && e@ == RoStartErrorView::Config(
                invalid_language(self.language@),
            )),
            self.valid() ==> match config_dir {
                Some(dir) => r matches Ok(plan) && plan.directory@ == config_directory(dir@)
                    && plan.file@ == config_file(dir@) && plan.mode == CONFIG_FILE_MODE,
                None => r matches Err(e) && e@ == RoStartErrorView::Config(
                    "Failed to get config directory"@,
                ),
            },
    {
        match self.validate() {
            Err(e) => Err(e),
            Ok(_) => match config_dir {
                Some(dir) => {
                    let directory = join_path(dir.as_str(), "ro-start");
                    let file = join_path(directory.as_str(), "config.toml");
                    Ok(SavePlan { directory, file, mode: CONFIG_FILE_MODE })
                },
                None => Err(
                    RoStartError::Config(String::from_str("Failed to get config directory")),
                ),
            },
        }
    }

    /// Where and how to store these settings. Settings that are not valid are
    /// refused, whatever the environment. Valid ones are refused only where
    /// the environment tells no configuration directory.
    pub fn save(&self) -> (r: Result<SavePlan, RoStartError>)
        ensures
            !self.valid() ==> (r matches Err(e) && e@ == RoStartErrorView::Config(
                invalid_language(self.language@),
            )),
            self.valid() ==> match r {
                Ok(plan) => plan.mode == CONFIG_FILE_MODE && exists|dir: Seq<char>|
                    plan.directory@ == config_directory(dir) && plan.file@ == config_file(dir),
                Err(e) => e@ == RoStartErrorView::Config("Failed to get config directory"@),
            },
    {
        self.save_in(user_config_dir())
    }
}

} // verus!
