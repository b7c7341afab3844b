//! The configuration held in memory together with the path of its file.
//!
//! Reading and writing the file is the caller's part: after each change
//! made here, the caller saves the configuration.
use vstd::prelude::*;
use vstd::string::*;

use crate::config::{
    deref_profiles, enabled_only, first_named, has_named, law_add_keeps_names_unique,
    law_remove_then_absent, names_unique, profile_index, profile_named, Config, Profile,
};
use crate::config::CONFIG_VERSION;
use crate::error::RemapperError;
use crate::migration::{migrate_v1_config, migrated_to, V1Config};
use crate::text::{dec_str, push_dec, str_eq};

verus! {

/// What the text of a configuration file was found to hold.
pub enum ConfigText {
    /// A configuration in the current format
    Current(Config),
    /// A JSON document that is no configuration in the current format, with
    /// whether it has a `version` field and what it holds read as a
    /// version-1 configuration
    OtherJson { has_version: bool, v1: V1Config },
    /// Text that is no JSON document
    NotJson,
}

/// A configuration read from its file, and what loading it asks the caller
/// to write.
pub struct LoadedConfig {
    /// The configuration to use
    pub config: Config,
    /// Whether the version-1 text is to be kept beside the file
    pub back_up_v1: bool,
    /// Whether the configuration is to be saved over the file
    pub save: bool,
}

/// What loading a configuration file's text gives: a current configuration
/// as it is, saved again when its version is older than the current one; a
/// JSON document without a `version` field migrated from version 1, its
/// text kept as a backup; anything else refused with the parse error.
pub fn settle_config_text(text: ConfigText, parse_error: String) -> (r: Result<
    LoadedConfig,
    RemapperError,
>)
    ensures
        match text {
            ConfigText::Current(c) => r matches Ok(l) && l.config == c && !l.back_up_v1 && l.save
                == (c.version < CONFIG_VERSION),
            ConfigText::OtherJson { has_version: false, v1 } => match r {
                Ok(l) => migrated_to(v1, Ok(l.config)) && l.back_up_v1 && l.save == (
                l.config.version < CONFIG_VERSION),
                Err(e) => migrated_to(v1, Err(e)),
            },
            _ => r matches Err(RemapperError::ConfigParseError(m)) && m@ == parse_error@,
        },
{
    match text {
        ConfigText::Current(c) => {
            let save = c.version < CONFIG_VERSION;
            Ok(LoadedConfig { config: c, back_up_v1: false, save })
        },
        ConfigText::OtherJson { has_version: false, v1 } => {
            let c = migrate_v1_config(&v1)?;
            let save = c.version < CONFIG_VERSION;
            Ok(LoadedConfig { config: c, back_up_v1: true, save })
        },
        _ => Err(RemapperError::ConfigParseError(parse_error)),
    }
}

/// Configuration file manager: the path of the file and the configuration.
#[derive(Debug, Clone)]
pub struct ConfigManager {
    /// Path to config file
    path: String,
    /// Current configuration
    config: Config,
}

/// A path with a relative name appended, as `Path::join` appends one: with
/// a separator between them unless the path is empty or already ends in one.
pub open spec fn joined_path(dir: Seq<char>, name: Seq<char>) -> Seq<char> {
    if dir.len() == 0 {
        name
    } else if dir.last() == '/' {
        dir + name
    } else {
        dir + "/"@ + name
    }
}

/// The configuration file within a configuration directory.
pub open spec fn config_file_in(dir: Seq<char>) -> Seq<char> {
    joined_path(dir, "config.json"@)
}

#[verifier::external_type_specification]
#[verifier::external_body]
pub struct ExProjectDirs(directories::ProjectDirs);

/// Calls `directories::ProjectDirs::from`: a project's standard directories,
/// `None` when the system gives no valid home directory. They depend on the
/// environment and the platform, so nothing is claimed of them.
#[verifier::external_body]
fn project_dirs(
    qualifier: &str,
    organization: &str,
    application: &str,
) -> Option<directories::ProjectDirs> {
    directories::ProjectDirs::from(qualifier, organization, application)
}

/// Calls `directories::ProjectDirs::config_dir` and gives the path as text,
/// converted lossily where it is not valid Unicode. Nothing is claimed of
/// the path.
#[verifier::external_body]
fn config_dir_of(dirs: &directories::ProjectDirs) -> String {
    dirs.config_dir().to_string_lossy().into_owned()
}

/// The name of a backup of the configuration file taken at `secs` seconds
/// since the Unix epoch.
pub open spec fn backup_name_text(secs: u64) -> Seq<char> {
    "config.backup."@ + dec_str(secs as nat) + ".json"@
}

/// The backup file's name for the time `secs`.
pub fn backup_file_name(secs: u64) -> (r: String)
    ensures
        r@ == backup_name_text(secs),
{
    let mut s = String::from_str("config.backup.");
    push_dec(&mut s, secs);
    s.append(".json");
    s
}

/// `joined_path`, computed.
pub(crate) fn join_path(dir: &str, name: &str) -> (r: String)
    ensures
        r@ == joined_path(dir@, name@),
{
    let n = dir.unicode_len();
    if n == 0 {
        return String::from_str(name);
    }
    let mut s = String::from_str(dir);
    if dir.get_char(n - 1) != '/' {
        s.append("/");
    }
    s.append(name);
    s
}

/// Whether a profile other than the one at `skip` is named `name`.
fn named_elsewhere(ps: &Vec<Profile>, skip: usize, name: &str) -> (r: bool)
    requires
        skip < ps@.len(),
    ensures
        r == has_named(ps@.remove(skip as int), name@),
{
    let ghost rest = ps@.remove(skip as int);
    let mut j: usize = 0;
    while j < ps.len()
        invariant
            0 <= j <= ps@.len(),
            skip < ps@.len(),
            rest == ps@.remove(skip as int),
            forall|k: int| 0 <= k < j && k != skip ==> (#[trigger] ps@[k]).name@ != name@,
        decreases ps@.len() - j,
    {
        if j != skip && str_eq(ps[j].name.as_str(), name) {
            proof {
                let k = if j < skip { j as int } else { j - 1 };
                assert(rest[k] == ps@[j as int]);
            }
            return true;
        }
        j = j + 1;
    }
    proof {
        assert forall|k: int| 0 <= k < rest.len() implies (#[trigger] rest[k]).name@ != name@ by {
            let m = if k < skip { k } else { k + 1 };
            assert(rest[k] == ps@[m]);
        }
    }
    false
}

impl ConfigManager {
    /// The path of the configuration file.
    pub closed spec fn path_view(&self) -> Seq<char> {
        self.path@
    }

    /// The configuration held.
    pub closed spec fn config_view(&self) -> Config {
        self.config
    }

    /// The program's configuration directory, `None` when the system gives
    /// no home directory.
    pub fn default_config_dir() -> Option<String> {
        match project_dirs("", "", "remapper") {
            Some(dirs) => Some(config_dir_of(&dirs)),
            None => None,
        }
    }

    /// The configuration file within a configuration directory, if there is
    /// one.
    pub fn config_path_in(dir: Option<String>) -> (r: Option<String>)
        ensures
            match dir {
                Some(d) => r matches Some(p) && p@ == config_file_in(d@),
                None => r is None,
            },
    {
        match dir {
            Some(d) => Some(join_path(d.as_str(), "config.json")),
            None => None,
        }
    }

    /// The default configuration file: `config.json` within the default
    /// configuration directory, when there is one.
    pub fn default_config_path() -> (r: Option<String>)
        ensures
            r matches Some(p) ==> exists|d: Seq<char>| p@ == config_file_in(d),
    {
        let dir = Self::default_config_dir();
        let ghost found = dir;
        let r = Self::config_path_in(dir);
        proof {
            if let Some(d) = found {
                assert(r->0@ == config_file_in(d@));
            }
        }
        r
    }

    /// A manager for the configuration read from (or to be written to) `path`.
    pub fn new(path: String, config: Config) -> (r: Self)
        ensures
            r.path_view() == path@,
            r.config_view() == config,
    {
        ConfigManager { path, config }
    }

    /// Get the config file path.
    pub fn path(&self) -> (r: &str)
        ensures
            r@ == self.path_view(),
    {
        self.path.as_str()
    }

    /// Get the current configuration.
    pub fn config(&self) -> (r: &Config)
        ensures
            *r == self.config_view(),
    {
        &self.config
    }

    /// Get mutable configuration.
    pub fn config_mut(&mut self) -> (r: &mut Config)
        ensures
            *r == old(self).config_view(),
            final(self).config_view() == *final(r),
            final(self).path_view() == old(self).path_view(),
    {
        &mut self.config
    }

    /// Replaces the configuration, as a reload from the file does.
    pub fn set_config(&mut self, config: Config)
        ensures
            final(self).config_view() == config,
            final(self).path_view() == old(self).path_view(),
    {
        self.config = config;
    }

    /// Get all profiles.
    pub fn profiles(&self) -> (r: &[Profile])
        ensures
            r@ == self.config_view().profiles@,
    {
        self.config.profiles.as_slice()
    }

    /// Get a profile by name.
    pub fn get_profile(&self, name: &str) -> (r: Option<&Profile>)
        ensures
            match r {
                Some(p) => profile_named(self.config_view().profiles@, name@) == Some(*p),
                None => profile_named(self.config_view().profiles@, name@) is None,
            },
    {
        self.config.find_profile(name)
    }

    /// Add a new profile; refused when a profile of that name exists.
    pub fn add_profile(&mut self, profile: Profile) -> (r: Result<(), RemapperError>)
        ensures
            final(self).path_view() == old(self).path_view(),
            final(self).config_view().version == old(self).config_view().version,
            final(self).config_view().settings == old(self).config_view().settings,
            match r {
                Ok(()) => {
                    &&& !has_named(old(self).config_view().profiles@, profile.name@)
                    &&& final(self).config_view().profiles@ == old(self).config_view().profiles@.push(profile)
                },
                Err(e) => {
                    &&& has_named(old(self).config_view().profiles@, profile.name@)
                    &&& final(self).config_view().profiles@ == old(self).config_view().profiles@
                    &&& e matches RemapperError::ProfileExists(n) && n@ == profile.name@
                },
            },
    {
        self.config.add_profile(profile)
    }

    /// Update an existing profile: the first profile named `name` leaves the
    /// list and `profile` is appended to it. A profile's name identifies it,
    /// so the update is refused when another profile already carries the
    /// replacement's name.
    pub fn update_profile(&mut self, name: &str, profile: Profile) -> (r: Result<
        (),
        RemapperError,
    >)
        ensures
            final(self).path_view() == old(self).path_view(),
            final(self).config_view().version == old(self).config_view().version,
            final(self).config_view().settings == old(self).config_view().settings,
            match r {
                Ok(()) => {
                    &&& first_named(old(self).config_view().profiles@, name@) matches Some(i)
                        && !has_named(old(self).config_view().profiles@.remove(i), profile.name@)
                        && final(self).config_view().profiles@ == old(self).config_view().profiles@.remove(i).push(profile)
                },
                Err(e) => {
                    &&& final(self).config_view().profiles@ == old(self).config_view().profiles@
                    &&& match first_named(old(self).config_view().profiles@, name@) {
                        None => e matches RemapperError::ProfileNotFound(n) && n@ == name@,
                        Some(i) => has_named(old(self).config_view().profiles@.remove(i), profile.name@)
                            && (e matches RemapperError::ProfileExists(n) && n@ == profile.name@),
                    }
                },
            },
            names_unique(old(self).config_view().profiles@) && r is Ok ==> names_unique(
                final(self).config_view().profiles@,
            ),
    {
        let i = match profile_index(&self.config.profiles, name) {
            Some(i) => i,
            None => {
                return Err(RemapperError::ProfileNotFound(String::from_str(name)));
            },
        };
        if named_elsewhere(&self.config.profiles, i, profile.name.as_str()) {
            return Err(RemapperError::ProfileExists(profile.name));
        }
        let ghost before = self.config.profiles@;
        self.config.profiles.remove(i);
        proof {
            if names_unique(before) {
                law_remove_then_absent(before, name@, i as int);
                law_add_keeps_names_unique(self.config.profiles@, profile);
            }
        }
        self.config.profiles.push(profile);
        Ok(())
    }

    /// Delete a profile: the first one named `name`.
    pub fn delete_profile(&mut self, name: &str) -> (r: Result<(), RemapperError>)
        ensures
            final(self).path_view() == old(self).path_view(),
            final(self).config_view().version == old(self).config_view().version,
            final(self).config_view().settings == old(self).config_view().settings,
            match r {
                Ok(()) => {
                    &&& first_named(old(self).config_view().profiles@, name@) matches Some(i)
                        && final(self).config_view().profiles@ == old(self).config_view().profiles@.remove(i)
                },
                Err(e) => {
                    &&& first_named(old(self).config_view().profiles@, name@) is None
                    &&& final(self).config_view().profiles@ == old(self).config_view().profiles@
                    &&& e matches RemapperError::ProfileNotFound(n) && n@ == name@
                },
            },
    {
        match self.config.remove_profile(name) {
            Ok(_) => Ok(()),
            Err(e) => Err(e),
        }
    }

    /// Get enabled profiles.
    pub fn enabled_profiles(&self) -> (r: Vec<&Profile>)
        ensures
            deref_profiles(r@) == enabled_only(self.config_view().profiles@),
    {
        self.config.enabled_profiles()
    }

    /// Set profile enabled state: the first profile named `name`.
    pub fn set_profile_enabled(&mut self, name: &str, enabled: bool) -> (r: Result<
        (),
        RemapperError,
    >)
        ensures
            final(self).path_view() == old(self).path_view(),
            final(self).config_view().version == old(self).config_view().version,
            final(self).config_view().settings == old(self).config_view().settings,
            match r {
                Ok(()) => {
                    &&& first_named(old(self).config_view().profiles@, name@) matches Some(i)
                        && final(self).config_view().profiles@ == old(self).config_view().profiles@.update(
                        i,
                        Profile { enabled, ..old(self).config_view().profiles@[i] },
                    )
                },
                Err(e) => {
                    &&& first_named(old(self).config_view().profiles@, name@) is None
                    &&& final(self).config_view().profiles@ == old(self).config_view().profiles@
                    &&& e matches RemapperError::ProfileNotFound(n) && n@ == name@
                },
            },
    {
        if self.config.set_enabled(name, enabled) {
            Ok(())
        } else {
            Err(RemapperError::ProfileNotFound(String::from_str(name)))
        }
    }
}

} // verus!
