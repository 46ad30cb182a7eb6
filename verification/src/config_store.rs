//! Decisions behind loading and saving the configuration file.
//!
//! The file operations themselves are the caller's. It reports what it found and
//! carries out the steps that are decided here.

use vstd::prelude::*;

use crate::config::{config_error, config_valid, Config, ConfigError, ConfigErrorView, CONFIG_VERSION};
use crate::config::{default_config, lemma_config_error, MAX_CONFIG_BYTES};
use crate::json::{document_error, json_error, json_number, member_number};
use crate::text::{below, decimal, decimal_text, path_below};

verus! {

/// How many numbered siblings of a file name are tried.
pub const SIBLING_LIMIT: u64 = 10000;

// ---------------------------------------------------------------------------
// Location
// ---------------------------------------------------------------------------

/// Where the configuration lies: in the user's configuration directory, which is
/// below the home directory, else below the working directory, where it is not
/// given.
pub open spec fn config_location(config_home: Option<&str>, home: Option<&str>) -> Seq<char> {
    let base = match config_home {
        Some(directory) => directory@,
        None => below(
            match home {
                Some(directory) => directory@,
                None => "."@,
            },
            ".config"@,
        ),
    };
    below(below(base, "z13helper"@), "config.json"@)
}

impl Config {
    /// Where the configuration lies.
    pub fn default_path(config_home: Option<&str>, home: Option<&str>) -> (result: String)
        ensures
            result@ == config_location(config_home, home),
    {
        let base: String = match config_home {
            Some(directory) => String::from_str(directory),
            None => match home {
                Some(directory) => path_below(directory, ".config"),
                None => path_below(".", ".config"),
            },
        };
        let directory: String = path_below(base.as_str(), "z13helper");
        path_below(directory.as_str(), "config.json")
    }
}

// ---------------------------------------------------------------------------
// Parsing
// ---------------------------------------------------------------------------

/// The schema version of a document: the low 32 bits of its `version` member, or
/// zero without one.
///
/// A larger number is no version either: the member is decoded to 32 bits, and
/// that it does not fit is found there.
pub open spec fn schema_version(version: Option<u64>) -> u32 {
    match version {
        Some(version) => (version % 0x1_0000_0000) as u32,
        None => 0,
    }
}

/// Accepts the current schema version only, given the document's `version`
/// member.
pub fn check_version(version: Option<u64>) -> (result: Result<(), ConfigError>)
    ensures
        match result {
            Ok(_) => schema_version(version) == CONFIG_VERSION,
            Err(error) => schema_version(version) != CONFIG_VERSION && error@
                == ConfigErrorView::UnsupportedVersion(schema_version(version)),
        },
{
    let found: u32 = match version {
        Some(version) => (version % 0x1_0000_0000) as u32,
        None => 0,
    };
    if found != CONFIG_VERSION {
        return Err(ConfigError::UnsupportedVersion(found));
    }
    Ok(())
}

/// The error that a stored document is refused with before its content is read.
pub open spec fn schema_error(bytes: Seq<u8>) -> Option<ConfigErrorView> {
    match json_error(bytes) {
        Some(text) => Some(ConfigErrorView::Json(text)),
        None => if schema_version(json_number(bytes, "version"@)) != CONFIG_VERSION {
            Some(
                ConfigErrorView::UnsupportedVersion(
                    schema_version(json_number(bytes, "version"@)),
                ),
            )
        } else {
            None
        },
    }
}

/// Checks that stored bytes are a JSON document of the current schema version.
pub fn check_schema(bytes: &[u8]) -> (result: Result<(), ConfigError>)
    ensures
        match schema_error(bytes@) {
            Some(error) => result matches Err(found) && found@ == error,
            None => result is Ok,
        },
{
    match document_error(bytes) {
        Some(text) => {
            return Err(ConfigError::Json(text));
        },
        None => {},
    }
    check_version(member_number(bytes, "version"))
}

/// Accepts what a document of the current schema version was decoded to.
pub fn accept_config(decoded: Result<Config, String>) -> (result: Result<Config, ConfigError>)
    ensures
        match decoded {
            Err(text) => result matches Err(error) && error@ == ConfigErrorView::Invalid(text@),
            Ok(config) => match config_error(config@) {
                Some(found) => result matches Err(error) && error@ == found,
                None => result == Ok::<Config, ConfigError>(config) && config_valid(config@),
            },
        },
{
    match decoded {
        Err(text) => Err(ConfigError::Invalid(text)),
        Ok(config) => {
            match config.validate() {
                Ok(_) => Ok(config),
                Err(error) => Err(error),
            }
        },
    }
}

/// What a stored document is accepted as or refused with, given its bytes and
/// what its members were decoded to.
pub open spec fn is_parsed(
    bytes: Seq<u8>,
    decoded: Result<Config, String>,
    result: Result<Config, ConfigError>,
) -> bool {
    match schema_error(bytes) {
        Some(found) => result matches Err(error) && error@ == found,
        None => match decoded {
            Err(text) => result matches Err(error) && error@ == ConfigErrorView::Invalid(text@),
            Ok(config) => match config_error(config@) {
                Some(found) => result matches Err(error) && error@ == found,
                None => result == Ok::<Config, ConfigError>(config),
            },
        },
    }
}

impl Config {
    /// Accepts a stored document, given its bytes and what its members were
    /// decoded to.
    ///
    /// The syntax and the schema version are judged before the content.
    pub fn parse_bytes(bytes: &[u8], decoded: Result<Config, String>) -> (result: Result<
        Config,
        ConfigError,
    >)
        ensures
            is_parsed(bytes@, decoded, result),
    {
        match check_schema(bytes) {
            Ok(_) => accept_config(decoded),
            Err(error) => Err(error),
        }
    }
}

// ---------------------------------------------------------------------------
// Loading
// ---------------------------------------------------------------------------

/// What stands at a path.
#[derive(Clone, Copy, Debug, PartialEq, Eq, Structural)]
pub enum PathKind {
    Missing,
    Regular,
    Symlink,
    Other,
}

/// Decides whether a configuration file exists at a path.
///
/// Anything but a regular file is refused rather than followed or replaced.
pub fn existing_config(kind: PathKind, path: &str) -> (result: Result<bool, ConfigError>)
    ensures
        match kind {
            PathKind::Missing => result == Ok::<bool, ConfigError>(false),
            PathKind::Regular => result == Ok::<bool, ConfigError>(true),
            PathKind::Symlink => result matches Err(error) && error@ == ConfigErrorView::Io(
                "config path "@ + path@ + " is a symlink"@,
            ),
            PathKind::Other => result matches Err(error) && error@ == ConfigErrorView::Io(
                "config path "@ + path@ + " is not a regular file"@,
            ),
        },
{
    match kind {
        PathKind::Missing => Ok(false),
        PathKind::Regular => Ok(true),
        PathKind::Symlink => {
            let mut text: String = String::from_str("config path ");
            text.append(path);
            text.append(" is a symlink");
            Err(ConfigError::Io(text))
        },
        PathKind::Other => {
            let mut text: String = String::from_str("config path ");
            text.append(path);
            text.append(" is not a regular file");
            Err(ConfigError::Io(text))
        },
    }
}

/// Refuses a configuration that is too large to read.
pub fn check_config_size(bytes: u64, path: &str) -> (result: Result<(), ConfigError>)
    ensures
        match result {
            Ok(_) => bytes <= MAX_CONFIG_BYTES,
            Err(error) => bytes > MAX_CONFIG_BYTES && error@ == ConfigErrorView::Io(
                "config "@ + path@ + " exceeds 1048576 bytes"@,
            ),
        },
{
    if bytes > MAX_CONFIG_BYTES {
        let mut text: String = String::from_str("config ");
        text.append(path);
        text.append(" exceeds 1048576 bytes");
        return Err(ConfigError::Io(text));
    }
    Ok(())
}

/// What was found at the configuration path.
pub enum StoredConfig {
    Missing,
    Refused(ConfigError),
    Read(Result<Config, ConfigError>),
}

/// What loading leads to.
///
/// `Seed` and `PreserveAndSeed` write the fresh configuration and use it; the
/// latter first keeps the corrupt bytes under a sibling name.
pub enum LoadAction {
    Use(Config),
    Seed(Config),
    PreserveAndSeed(Config),
    Fail(ConfigError),
}

/// What loading leads to, given what was found.
pub open spec fn is_load_action(stored: StoredConfig, action: LoadAction) -> bool {
    match stored {
        StoredConfig::Missing => action matches LoadAction::Seed(config) && config@
            == default_config(),
        StoredConfig::Refused(error) => action == LoadAction::Fail(error),
        StoredConfig::Read(Ok(config)) => action == LoadAction::Use(config),
        StoredConfig::Read(Err(ConfigError::Json(_))) => action
            matches LoadAction::PreserveAndSeed(config) && config@ == default_config(),
        StoredConfig::Read(Err(error)) => action == LoadAction::Fail(error),
    }
}

impl Config {
    /// Decides what loading leads to.
    ///
    /// Only a missing file and a file that is not JSON are replaced by the fresh
    /// configuration; a refused one is reported and left untouched.
    pub fn load_or_default(stored: StoredConfig) -> (result: LoadAction)
        ensures
            is_load_action(stored, result),
    {
        match stored {
            StoredConfig::Missing => LoadAction::Seed(Config::default()),
            StoredConfig::Refused(error) => LoadAction::Fail(error),
            StoredConfig::Read(parsed) => {
                match parsed {
                    Ok(config) => LoadAction::Use(config),
                    Err(error) => {
                        match error {
                            ConfigError::Json(_) => LoadAction::PreserveAndSeed(Config::default()),
                            other => LoadAction::Fail(other),
                        }
                    },
                }
            },
        }
    }
}

// ---------------------------------------------------------------------------
// Saving
// ---------------------------------------------------------------------------

/// The steps of an atomic save, in order.
///
/// The previous file is kept as a backup; backup and new file are each written
/// under a private temporary name, then renamed into place.
#[derive(Clone, Copy, Debug, PartialEq, Eq, Structural)]
pub enum SaveStep {
    CreateDirectory,
    InspectPath,
    ReadCurrent,
    ChooseBackup,
    WriteBackup,
    PublishBackup,
    SyncBackup,
    WriteTemporary,
    Publish,
    SyncParent,
    Done,
}

/// The step after a step that succeeded.
pub open spec fn step_after(step: SaveStep, had_existing: bool) -> SaveStep {
    match step {
        SaveStep::CreateDirectory => SaveStep::InspectPath,
        SaveStep::InspectPath => if had_existing {
            SaveStep::ReadCurrent
        } else {
            SaveStep::WriteTemporary
        },
        SaveStep::ReadCurrent => SaveStep::ChooseBackup,
        SaveStep::ChooseBackup => SaveStep::WriteBackup,
        SaveStep::WriteBackup => SaveStep::PublishBackup,
        SaveStep::PublishBackup => SaveStep::SyncBackup,
        SaveStep::SyncBackup => SaveStep::WriteTemporary,
        SaveStep::WriteTemporary => SaveStep::Publish,
        SaveStep::Publish => SaveStep::SyncParent,
        SaveStep::SyncParent => SaveStep::Done,
        SaveStep::Done => SaveStep::Done,
    }
}

/// The step after a step that succeeded; a step that fails ends the save.
pub fn next_save_step(step: SaveStep, had_existing: bool) -> (result: SaveStep)
    ensures
        result == step_after(step, had_existing),
{
    match step {
        SaveStep::CreateDirectory => SaveStep::InspectPath,
        SaveStep::InspectPath => if had_existing {
            SaveStep::ReadCurrent
        } else {
            SaveStep::WriteTemporary
        },
        SaveStep::ReadCurrent => SaveStep::ChooseBackup,
        SaveStep::ChooseBackup => SaveStep::WriteBackup,
        SaveStep::WriteBackup => SaveStep::PublishBackup,
        SaveStep::PublishBackup => SaveStep::SyncBackup,
        SaveStep::SyncBackup => SaveStep::WriteTemporary,
        SaveStep::WriteTemporary => SaveStep::Publish,
        SaveStep::Publish => SaveStep::SyncParent,
        SaveStep::SyncParent => SaveStep::Done,
        SaveStep::Done => SaveStep::Done,
    }
}

/// How a save of a configuration starts: only a valid one is written.
pub open spec fn is_save_start(config: Config, result: Result<SaveStep, ConfigError>) -> bool {
    match config_error(config@) {
        Some(found) => result matches Err(error) && error@ == found,
        None => result == Ok::<SaveStep, ConfigError>(SaveStep::CreateDirectory),
    }
}

impl Config {
    /// Starts a save: an invalid configuration is refused before any step.
    pub fn save(&self) -> (result: Result<SaveStep, ConfigError>)
        ensures
            is_save_start(*self, result),
    {
        match self.validate() {
            Ok(_) => Ok(SaveStep::CreateDirectory),
            Err(error) => Err(error),
        }
    }
}

/// The file is replaced only by complete bytes, and a previous file only after
/// its backup is in place and synced.
pub proof fn law_publishing_follows_a_complete_write(step: SaveStep, had_existing: bool)
    ensures
        step_after(step, had_existing) == SaveStep::Publish ==> step == SaveStep::WriteTemporary,
        step_after(step, had_existing) == SaveStep::PublishBackup ==> step == SaveStep::WriteBackup,
        step_after(step, had_existing) == SaveStep::WriteTemporary && had_existing ==> step
            == SaveStep::SyncBackup,
        step_after(step, had_existing) == SaveStep::SyncBackup ==> step == SaveStep::PublishBackup,
{
}

/// What the files of a save hold: the file itself, its backup, and the private
/// temporary files of both.
pub struct SavedFiles {
    pub file: Option<Seq<u8>>,
    pub backup: Option<Seq<u8>>,
    pub backup_temporary: Option<Seq<u8>>,
    pub temporary: Option<Seq<u8>>,
}

impl SavedFiles {
    /// What a step that succeeds leaves, where `bytes` is what is saved: writing
    /// fills a temporary file, and publishing renames it into place.
    pub open spec fn after(self, step: SaveStep, bytes: Seq<u8>) -> SavedFiles {
        match step {
            SaveStep::WriteBackup => SavedFiles { backup_temporary: self.file, ..self },
            SaveStep::PublishBackup => SavedFiles {
                backup: self.backup_temporary,
                backup_temporary: None,
                ..self
            },
            SaveStep::WriteTemporary => SavedFiles { temporary: Some(bytes), ..self },
            SaveStep::Publish => SavedFiles { file: self.temporary, temporary: None, ..self },
            _ => self,
        }
    }

    /// What a step that fails may leave: anything in the temporary file that it
    /// writes, and nothing else changed.
    pub open spec fn may_become(self, step: SaveStep, after: SavedFiles) -> bool {
        &&& after.file == self.file
        &&& after.backup == self.backup
        &&& step != SaveStep::WriteBackup ==> after.backup_temporary == self.backup_temporary
        &&& step != SaveStep::WriteTemporary ==> after.temporary == self.temporary
    }
}

/// The next step and the files after `count` steps of a save that succeeded.
pub open spec fn save_after(files: SavedFiles, bytes: Seq<u8>, count: nat) -> (
    SaveStep,
    SavedFiles,
)
    decreases count,
{
    if count == 0 {
        (SaveStep::CreateDirectory, files)
    } else {
        let (step, sofar) = save_after(files, bytes, (count - 1) as nat);
        (step_after(step, files.file is Some), sofar.after(step, bytes))
    }
}

/// The new bytes have been published.
pub open spec fn published(step: SaveStep) -> bool {
    step == SaveStep::SyncParent || step == SaveStep::Done
}

proof fn lemma_save_progress(files: SavedFiles, bytes: Seq<u8>, count: nat)
    ensures
        ({
            let (step, now) = save_after(files, bytes, count);
            let backed_up = if files.file is Some {
                files.file
            } else {
                files.backup
            };
            &&& now.file == (if published(step) {
                Some(bytes)
            } else {
                files.file
            })
            &&& match step {
                SaveStep::CreateDirectory => now.backup == files.backup,
                SaveStep::InspectPath => now.backup == files.backup,
                SaveStep::ReadCurrent => now.backup == files.backup && files.file is Some,
                SaveStep::ChooseBackup => now.backup == files.backup && files.file is Some,
                SaveStep::WriteBackup => now.backup == files.backup && files.file is Some,
                SaveStep::PublishBackup => now.backup == files.backup && now.backup_temporary
                    == files.file && files.file is Some,
                SaveStep::Publish => now.backup == backed_up && now.temporary == Some(bytes),
                _ => now.backup == backed_up,
            }
            &&& steps_left(step) + count <= 10 || step == SaveStep::Done
        }),
    decreases count,
{
    if count > 0 {
        lemma_save_progress(files, bytes, (count - 1) as nat);
    }
}

/// A save is atomic: wherever it stops, the file holds what it held before or the
/// complete new bytes, the former exactly until they are published, and no other
/// file is replaced but the backup. It is done after ten steps at most; then the
/// file holds the new bytes and the backup holds the previous ones, if there were
/// any.
pub proof fn law_a_save_is_atomic(
    files: SavedFiles,
    bytes: Seq<u8>,
    count: nat,
    stopped: SavedFiles,
)
    requires
        ({
            let (step, now) = save_after(files, bytes, count);
            stopped == now || now.may_become(step, stopped)
        }),
    ensures
        ({
            let step = save_after(files, bytes, count).0;
            &&& stopped.file == (if published(step) {
                Some(bytes)
            } else {
                files.file
            })
            &&& stopped.backup == files.backup || stopped.backup == files.file
            &&& published(step) && files.file is Some ==> stopped.backup == files.file
            &&& files.file is None ==> stopped.backup == files.backup
            &&& count >= 10 ==> step == SaveStep::Done
        }),
{
    lemma_save_progress(files, bytes, count);
}

/// A configuration that was saved is what loading uses: the steps of an accepted
/// save leave its bytes in the file, and where these are a document of the current
/// version that decodes to the configuration, loading the file gives it back.
pub proof fn law_a_saved_config_loads_back(
    config: Config,
    start: Result<SaveStep, ConfigError>,
    files: SavedFiles,
    bytes: Seq<u8>,
    count: nat,
    parsed: Result<Config, ConfigError>,
    action: LoadAction,
)
    requires
        is_save_start(config, start),
        start is Ok,
        save_after(files, bytes, count).0 == SaveStep::Done,
        schema_error(bytes) is None,
        is_parsed(save_after(files, bytes, count).1.file->0, Ok(config), parsed),
        is_load_action(StoredConfig::Read(parsed), action),
    ensures
        save_after(files, bytes, count).1.file == Some(bytes),
        action == LoadAction::Use(config),
{
    law_a_save_is_atomic(files, bytes, count, save_after(files, bytes, count).1);
}

/// A file that is refused for what it holds is reported and left alone: only a
/// missing file is seeded, and only one that is no JSON is replaced, after its bytes
/// were kept, each by the fresh configuration.
pub proof fn law_refused_files_are_left_alone(
    config: Config,
    error: ConfigError,
    text: String,
    found: LoadAction,
    missing: LoadAction,
    refused: LoadAction,
    corrupt: LoadAction,
    unreadable: LoadAction,
)
    requires
        is_load_action(StoredConfig::Read(Ok(config)), found),
        is_load_action(StoredConfig::Missing, missing),
        !(error is Json),
        is_load_action(StoredConfig::Read(Err(error)), refused),
        is_load_action(StoredConfig::Read(Err(ConfigError::Json(text))), corrupt),
        is_load_action(StoredConfig::Refused(error), unreadable),
    ensures
        found == LoadAction::Use(config),
        missing matches LoadAction::Seed(fresh) && fresh@ == default_config(),
        refused == LoadAction::Fail(error),
        corrupt matches LoadAction::PreserveAndSeed(fresh) && fresh@ == default_config(),
        unreadable == LoadAction::Fail(error),
{
}

/// A document is judged by its syntax first, then by its version, which must be the
/// first one, then by whether it could be decoded, and last by what it holds.
pub proof fn law_documents_are_judged_in_order(
    bytes: Seq<u8>,
    decoded: Result<Config, String>,
    result: Result<Config, ConfigError>,
)
    requires
        is_parsed(bytes, decoded, result),
    ensures
        json_error(bytes) matches Some(text) ==> (result matches Err(ConfigError::Json(shown))
            && shown@ == text),
        json_error(bytes) is None && json_number(bytes, "version"@) is None ==> (result
            matches Err(ConfigError::UnsupportedVersion(version)) && version == 0),
        json_error(bytes) is None ==> (json_number(bytes, "version"@) matches Some(version)
            ==> version <= u32::MAX && version != 1 ==> (result matches Err(
            ConfigError::UnsupportedVersion(shown),
        ) && shown == version)),
        json_error(bytes) is None && json_number(bytes, "version"@) == Some(1u64) ==> ({
            &&& decoded matches Err(text) ==> (result matches Err(ConfigError::Invalid(shown))
                && shown@ == text@)
            &&& decoded matches Ok(config) ==> (result is Ok <==> config_valid(config@))
            &&& decoded matches Ok(config) ==> (result matches Ok(taken) ==> taken == config)
        }),
{
    if let Ok(config) = decoded {
        lemma_config_error(config@);
    }
}

/// The configuration lies in the user's configuration directory, else below the home
/// directory, else below the working directory.
pub proof fn law_config_lies_where_the_user_keeps_it(directory: &str, home: Option<&str>)
    requires
        directory@.len() > 0,
        directory@.last() != '/',
    ensures
        config_location(Some(directory), home) == directory@ + "/z13helper/config.json"@,
        config_location(None, Some(directory)) == directory@ + "/.config/z13helper/config.json"@,
        config_location(None, None) == "./.config/z13helper/config.json"@,
{
    reveal_strlit("z13helper");
    reveal_strlit("config.json");
    reveal_strlit(".config");
    reveal_strlit(".");
    reveal_strlit("/z13helper/config.json");
    reveal_strlit("/.config/z13helper/config.json");
    reveal_strlit("./.config/z13helper/config.json");
    assert(config_location(Some(directory), home) =~= directory@ + "/z13helper/config.json"@);
    assert(config_location(None, Some(directory)) =~= directory@
        + "/.config/z13helper/config.json"@);
    assert(config_location(None, None) =~= "./.config/z13helper/config.json"@);
}

/// How many steps are left until a save is done.
pub open spec fn steps_left(step: SaveStep) -> nat {
    match step {
        SaveStep::CreateDirectory => 10,
        SaveStep::InspectPath => 9,
        SaveStep::ReadCurrent => 8,
        SaveStep::ChooseBackup => 7,
        SaveStep::WriteBackup => 6,
        SaveStep::PublishBackup => 5,
        SaveStep::SyncBackup => 4,
        SaveStep::WriteTemporary => 3,
        SaveStep::Publish => 2,
        SaveStep::SyncParent => 1,
        SaveStep::Done => 0,
    }
}

/// Every step brings a save closer to its end.
pub proof fn law_a_save_ends(step: SaveStep, had_existing: bool)
    requires
        step != SaveStep::Done,
    ensures
        steps_left(step_after(step, had_existing)) < steps_left(step),
{
}

/// The name of a numbered sibling: the name itself, then the name with `.1`,
/// `.2` and so on.
pub open spec fn sibling_name_of(name: Seq<char>, suffix: nat) -> Seq<char> {
    if suffix == 0 {
        name
    } else {
        name + "."@ + decimal(suffix)
    }
}

/// The name of a numbered sibling.
pub fn sibling_candidate(name: &str, suffix: u64) -> (result: String)
    ensures
        result@ == sibling_name_of(name@, suffix as nat),
{
    let mut text: String = String::from_str(name);
    if suffix != 0 {
        text.append(".");
        text.append(decimal_text(suffix as u128).as_str());
    }
    text
}

/// Different numbers give different sibling names.
pub proof fn law_siblings_are_distinct(name: Seq<char>, a: nat, b: nat)
    requires
        sibling_name_of(name, a) == sibling_name_of(name, b),
    ensures
        a == b,
{
    reveal_strlit(".");
    let at = name.len() as int + 1;
    if a != 0 && b != 0 {
        assert(sibling_name_of(name, a).skip(at) =~= decimal(a));
        assert(sibling_name_of(name, b).skip(at) =~= decimal(b));
        crate::text::lemma_decimal_is_injective(a, b);
    }
}

/// Whether a backup may take a sibling name: it replaces a regular file or
/// nothing, and follows no link.
pub fn usable_backup_slot(kind: PathKind) -> (result: bool)
    ensures
        result == (kind == PathKind::Regular || kind == PathKind::Missing),
{
    match kind {
        PathKind::Regular => true,
        PathKind::Missing => true,
        PathKind::Symlink => false,
        PathKind::Other => false,
    }
}

/// What follows the inspection of a backup slot.
#[derive(Clone, Copy, Debug, PartialEq, Eq, Structural)]
pub enum SlotStep {
    Take,
    Try(u64),
    Exhausted,
}

/// Decides whether the backup takes the sibling with this number, given what
/// stands there; the siblings are tried in the order of their numbers.
pub fn judge_backup_slot(suffix: u64, kind: PathKind) -> (result: SlotStep)
    ensures
        result == (if kind == PathKind::Regular || kind == PathKind::Missing {
            SlotStep::Take
        } else if suffix + 1 < SIBLING_LIMIT {
            SlotStep::Try((suffix + 1) as u64)
        } else {
            SlotStep::Exhausted
        }),
{
    if usable_backup_slot(kind) {
        return SlotStep::Take;
    }
    if suffix < SIBLING_LIMIT && suffix + 1 < SIBLING_LIMIT {
        SlotStep::Try(suffix + 1)
    } else {
        SlotStep::Exhausted
    }
}

/// Judges one attempt to create a numbered sibling: a name that is taken gives way
/// to the next, as long as one is left.
pub fn judge_created_sibling(suffix: u64, taken: bool) -> (result: SlotStep)
    ensures
        result == (if !taken {
            SlotStep::Take
        } else if suffix + 1 < SIBLING_LIMIT {
            SlotStep::Try((suffix + 1) as u64)
        } else {
            SlotStep::Exhausted
        }),
{
    if !taken {
        return SlotStep::Take;
    }
    if suffix < SIBLING_LIMIT && suffix + 1 < SIBLING_LIMIT {
        SlotStep::Try(suffix + 1)
    } else {
        SlotStep::Exhausted
    }
}

/// The name of a private temporary file.
pub open spec fn temp_name_of(name: Seq<char>, process: nat, nanos: nat, sequence: nat) -> Seq<
    char,
> {
    "."@ + name + "."@ + decimal(process) + "-"@ + decimal(nanos) + "-"@ + decimal(sequence)
        + ".tmp"@
}

/// The name of a private temporary file beside the file `name`.
pub fn temp_base(name: &str, process: u32, nanos: u128, sequence: u64) -> (result: String)
    ensures
        result@ == temp_name_of(name@, process as nat, nanos as nat, sequence as nat),
{
    let mut text: String = String::from_str(".");
    text.append(name);
    text.append(".");
    text.append(decimal_text(process as u128).as_str());
    text.append("-");
    text.append(decimal_text(nanos).as_str());
    text.append("-");
    text.append(decimal_text(sequence as u128).as_str());
    text.append(".tmp");
    text
}

/// Temporary names are private: they are hidden, end in `.tmp`, and two writes of one
/// process in the same instant never share one.
pub proof fn law_temporary_names_are_private(
    name: Seq<char>,
    process: nat,
    nanos: nat,
    a: nat,
    b: nat,
)
    ensures
        temp_name_of(name, process, nanos, a)[0] == '.',
        temp_name_of(name, process, nanos, a).skip(
            temp_name_of(name, process, nanos, a).len() - 4,
        ) == ".tmp"@,
        temp_name_of(name, process, nanos, a) == temp_name_of(name, process, nanos, b) ==> a == b,
{
    reveal_strlit(".");
    reveal_strlit(".tmp");
    let start = "."@ + name + "."@ + decimal(process) + "-"@ + decimal(nanos) + "-"@;
    let first = temp_name_of(name, process, nanos, a);
    let second = temp_name_of(name, process, nanos, b);
    assert(first =~= start + decimal(a) + ".tmp"@);
    assert(second =~= start + decimal(b) + ".tmp"@);
    assert(first.skip(first.len() - 4) =~= ".tmp"@);
    if first == second {
        assert(first.len() == second.len());
        assert(decimal(a).len() == decimal(b).len());
        let from = start.len() as int;
        let to = from + decimal(a).len();
        assert(first.subrange(from, to) =~= decimal(a));
        assert(second.subrange(from, to) =~= decimal(b));
        crate::text::lemma_decimal_is_injective(a, b);
    }
}

/// A sibling stands beside its file: the first candidate is the name itself, each
/// other one the name with a dot and its number.
pub proof fn law_siblings_stand_beside_their_file(name: Seq<char>, suffix: nat)
    ensures
        sibling_name_of(name, 0) == name,
        suffix > 0 ==> sibling_name_of(name, suffix) == name + "."@ + decimal(suffix),
{
}

} // verus!
