//! The settings that the client and the plugin share.
//!
//! Reading and writing the file, and its JSON form, are left to the caller: these
//! functions take what came of it and decide what the settings are.

use crate::output_path::{files_lie_before_a_slash, is_file_in};
use crate::paths::{
    is_dots_behind, is_file_name, is_join, is_tidy, join_path, joined_on, joins_plainly,
    may_be_share, may_be_joined, may_be_literal, may_be_parent, may_separate, parent_of,
};
use crate::text::{both_told, join2, optional_text, told};
use vstd::prelude::*;

verus! {

/// The name of the settings file.
pub const CONFIG_FILE_NAME: &'static str = "audio_rec_cli.json";

/// The settings.
#[derive(Clone)]
pub struct Config {
    /// The directory in which recordings are put when no path is given.
    pub save_path: Option<String>,
    /// The buffer size of the input stream, in frames.
    pub buffer_size_frames: Option<u32>,
}

impl Default for Config {
    fn default() -> (r: Config)
        ensures
            r.save_path is None,
            r.buffer_size_frames is None,
    {
        Config { save_path: None, buffer_size_frames: None }
    }
}

/// What reading a settings file came to.
pub enum ConfigFile {
    /// The file is missing or cannot be read.
    Unreadable,
    /// The file holds something else than settings.
    Malformed,
    /// The settings in the file.
    Parsed(Config),
}

/// The settings that nothing has been set in.
pub open spec fn default_config() -> Config {
    Config { save_path: None, buffer_size_frames: None }
}

/// The settings that a file stands for: those in it, or the default.
pub open spec fn config_of(file: ConfigFile) -> Config {
    match file {
        ConfigFile::Parsed(config) => config,
        _ => default_config(),
    }
}

/// The settings of one file. A file that is missing, unreadable or malformed stands
/// for the default.
pub fn load_config_from_path(file: ConfigFile) -> (config: Config)
    ensures
        config == config_of(file),
{
    match file {
        ConfigFile::Parsed(config) => config,
        ConfigFile::Unreadable => Config::default(),
        ConfigFile::Malformed => Config::default(),
    }
}

/// The settings of the shared file.
pub fn load_config(shared: ConfigFile) -> (config: Config)
    ensures
        config == config_of(shared),
{
    load_config_from_path(shared)
}

/// The settings of the shared file, or those of the legacy file where the shared one
/// does not exist. A shared file that exists but cannot be used stands for the
/// default all the same.
pub fn load_with_legacy_fallback(
    shared_is_file: bool,
    shared: ConfigFile,
    legacy: ConfigFile,
) -> (config: Config)
    ensures
        config == (if shared_is_file {
            config_of(shared)
        } else {
            config_of(legacy)
        }),
{
    if !shared_is_file {
        return load_config_from_path(legacy);
    }
    load_config_from_path(shared)
}

/// `directory` is `AviUtl2` joined to `base`, and `path` the settings file joined to
/// that.
pub open spec fn is_below(base: Seq<char>, directory: Seq<char>, path: Seq<char>) -> bool {
    is_join(base, "AviUtl2"@, directory) && is_join(directory, CONFIG_FILE_NAME@, path)
}

/// `path` is the settings file in the directory `AviUtl2` of `base`.
pub open spec fn lies_below(base: Seq<char>, path: Seq<char>) -> bool {
    exists|directory: Seq<char>| is_below(base, directory, path)
}

/// `path` is the place of the shared settings file: the file in the directory
/// `AviUtl2` of the directory for program data, or in the current directory where there
/// is none.
pub open spec fn may_be_shared_path(program_data: Option<Seq<char>>, path: Seq<char>) -> bool {
    match program_data {
        None => path == CONFIG_FILE_NAME@,
        Some(base) => lies_below(base, path),
    }
}

/// The two names that are joined here are names of files.
proof fn names_are_file_names()
    ensures
        is_file_name(CONFIG_FILE_NAME@),
        is_file_name("AviUtl2"@),
{
    reveal_strlit("AviUtl2");
    reveal_strlit("audio_rec_cli.json");
    assert(CONFIG_FILE_NAME@ == "audio_rec_cli.json"@);
    assert(CONFIG_FILE_NAME@.len() == 18);
    assert("AviUtl2"@.len() == 7);
    assert(seq!['.'].len() == 1 && seq!['.', '.'].len() == 2);
}

/// The path of the shared settings file: in the directory `AviUtl2` of the directory
/// for program data, or in the current directory where the system names none.
pub fn shared_config_path(program_data: Option<&str>) -> (path: String)
    ensures
        may_be_shared_path(
            (match program_data {
                Some(base) => Some(base@),
                None => None,
            }),
            path@,
        ),
{
    proof {
        names_are_file_names();
    }
    match program_data {
        Some(base) => {
            let directory: String = join_path(base, "AviUtl2");
            let path: String = join_path(directory.as_str(), CONFIG_FILE_NAME);
            assert(is_below(base@, directory@, path@));
            path
        },
        None => CONFIG_FILE_NAME.to_owned(),
    }
}

/// The shared settings file lies below the directory for program data, whatever that
/// is: `AviUtl2` comes behind it, and the file behind that. Directories that are taken
/// literally are left to [`shared_path_lies_below_a_literal_base`].
pub proof fn shared_path_lies_below_its_base(base: Seq<char>, path: Seq<char>)
    requires
        may_be_shared_path(Some(base), path),
        !may_be_literal(base),
    ensures
        exists|directory: Seq<char>| #[trigger]
            may_be_joined(base, "AviUtl2"@, directory) && may_be_joined(
                directory,
                CONFIG_FILE_NAME@,
                path,
            ),
        base.is_prefix_of(path),
{
    reveal_strlit("AviUtl2");
    let directory = choose|directory: Seq<char>| is_below(base, directory, path);
    assert(may_be_joined(base, "AviUtl2"@, directory));
    assert forall|i: int| 0 <= i < base.len() implies directory[i] == #[trigger] base[i] by {}
    if may_be_literal(directory) && base.len() >= 3 {
        assert(directory[0] == base[0] && directory[1] == base[1] && directory[2] == base[2]);
    }
    assert(base.is_prefix_of(directory));
    assert(directory.is_prefix_of(path));
    assert(path.take(base.len() as int) == base);
}

/// Where the directory for program data is taken literally and is tidy, `AviUtl2` comes
/// behind it, and by the rules of Windows, which alone takes paths literally, the file
/// comes behind that.
pub proof fn shared_path_lies_below_a_literal_base(base: Seq<char>, path: Seq<char>)
    requires
        may_be_shared_path(Some(base), path),
        may_be_literal(base),
        is_tidy(base),
    ensures
        exists|directory: Seq<char>| #[trigger]
            is_below(base, directory, path) && (directory == joined_on(false, base, "AviUtl2"@) || (
            directory == joined_on(true, base, "AviUtl2"@) && may_be_joined(
                directory,
                CONFIG_FILE_NAME@,
                path,
            ))),
{
    reveal_strlit("AviUtl2");
    let directory = choose|directory: Seq<char>| is_below(base, directory, path);
    assert(may_be_joined(base, "AviUtl2"@, directory));
    if directory == joined_on(true, base, "AviUtl2"@) {
        let at = base.len() as int;
        let behind = directory.len() - 7;
        assert(directory == base + "AviUtl2"@ || directory == base + seq!['\\'] + "AviUtl2"@);
        assert forall|i: int| 0 <= i < at implies directory[i] == #[trigger] base[i] by {}
        assert(directory[3] == base[3]);
        assert forall|i: int| behind <= i < directory.len() implies !may_separate(
            #[trigger] directory[i],
        ) && directory[i] != '.' by {
            assert(directory[i] == "AviUtl2"@[i - behind]);
        }
        assert forall|i: int| 0 <= i < directory.len() implies #[trigger] directory[i] != '/' by {
            if i < at {
                assert(base[i] != '/');
            }
        }
        assert forall|i: int| 3 <= i < directory.len() && may_separate(
            #[trigger] directory[i],
        ) implies !(i + 1 < directory.len() && may_separate(directory[i + 1])) && !is_dots_behind(
            directory,
            i,
        ) by {
            if i < at {
                assert(may_separate(base[i]));
                if i + 1 < at {
                    assert(directory[i + 1] == base[i + 1]);
                }
                if i + 2 < at {
                    assert(directory[i + 2] == base[i + 2]);
                }
                if i + 3 < at {
                    assert(directory[i + 3] == base[i + 3]);
                }
            }
        }
        assert(is_tidy(directory));
    }
}

/// The directory in which a program lies: the current one, where its place is unknown.
pub open spec fn program_directory(parent: Option<Seq<char>>) -> Seq<char> {
    match parent {
        Some(p) => p,
        None => "."@,
    }
}

/// `path` is the place of the client's own settings file: beside the program, or in the
/// current directory where the place of the program is unknown.
pub open spec fn may_be_client_path(program: Option<Seq<char>>, path: Seq<char>) -> bool {
    exists|parent: Option<Seq<char>>|
        #![trigger program_directory(parent)]
        (match program {
            Some(p) => may_be_parent(p, parent),
            None => parent is None,
        }) && is_join(program_directory(parent), CONFIG_FILE_NAME@, path)
}

/// The path of the client's own settings file.
pub fn client_config_path(program: Option<&str>) -> (path: String)
    ensures
        may_be_client_path(
            (match program {
                Some(p) => Some(p@),
                None => None,
            }),
            path@,
        ),
{
    proof {
        names_are_file_names();
    }
    let parent: Option<String> = match program {
        Some(p) => parent_of(p),
        None => None,
    };
    let ghost directory = program_directory(optional_text(parent));
    match parent {
        Some(p) => {
            let path: String = join_path(p.as_str(), CONFIG_FILE_NAME);
            assert(is_join(directory, CONFIG_FILE_NAME@, path@));
            path
        },
        None => {
            let path: String = join_path(".", CONFIG_FILE_NAME);
            assert(is_join(directory, CONFIG_FILE_NAME@, path@));
            path
        },
    }
}

/// What is to be done next to save the settings.
pub enum SaveStep {
    /// Create this directory and those above it.
    CreateDirectory(String),
    /// Put the settings into their file form.
    Form,
    /// Write the file.
    Write,
    /// Nothing more: this is the path of the file, or the message that tells what
    /// failed.
    Finished(Result<String, String>),
}

/// The view of a [`SaveStep`].
pub enum SaveStepView {
    /// See [`SaveStep::CreateDirectory`].
    CreateDirectory(Seq<char>),
    /// See [`SaveStep::Form`].
    Form,
    /// See [`SaveStep::Write`].
    Write,
    /// See [`SaveStep::Finished`].
    Finished(Result<Seq<char>, Seq<char>>),
}

impl View for SaveStep {
    type V = SaveStepView;

    open spec fn view(&self) -> SaveStepView {
        match *self {
            SaveStep::CreateDirectory(directory) => SaveStepView::CreateDirectory(directory@),
            SaveStep::Form => SaveStepView::Form,
            SaveStep::Write => SaveStepView::Write,
            SaveStep::Finished(result) => SaveStepView::Finished(both_told(result)),
        }
    }
}

/// The first step to save the settings in a file with this parent: its directory, where
/// it has one.
pub open spec fn first_save_step(parent: Option<Seq<char>>) -> SaveStepView {
    match parent {
        Some(directory) => SaveStepView::CreateDirectory(directory),
        None => SaveStepView::Form,
    }
}

/// The step after `step`, once `outcome` has told what came of it. The first failure
/// ends the saving.
pub open spec fn save_step_after(
    path: Seq<char>,
    step: SaveStepView,
    outcome: Result<(), Seq<char>>,
) -> SaveStepView {
    match (step, outcome) {
        (SaveStepView::CreateDirectory(_), Ok(())) => SaveStepView::Form,
        (SaveStepView::CreateDirectory(directory), Err(reason)) => SaveStepView::Finished(
            Err("設定ディレクトリの作成に失敗しました: "@ + directory + " ("@ + reason + ")"@),
        ),
        (SaveStepView::Form, Ok(())) => SaveStepView::Write,
        (SaveStepView::Form, Err(reason)) => SaveStepView::Finished(
            Err("設定のシリアライズに失敗しました: "@ + reason),
        ),
        (SaveStepView::Write, Ok(())) => SaveStepView::Finished(Ok(path)),
        (SaveStepView::Write, Err(reason)) => SaveStepView::Finished(
            Err("設定ファイルの書き込みに失敗しました: "@ + path + " ("@ + reason + ")"@),
        ),
        (SaveStepView::Finished(result), _) => SaveStepView::Finished(result),
    }
}

/// `front`, `subject` and `reason` in brackets.
fn with_reason(front: &str, subject: &str, reason: &str) -> (r: String)
    ensures
        r@ == front@ + subject@ + " ("@ + reason@ + ")"@,
{
    let mut message: String = join2(front, subject);
    message.append(" (");
    message.append(reason);
    message.append(")");
    message
}

/// The first step to save the shared settings to `path`.
pub fn save_config(path: &str) -> (step: SaveStep)
    ensures
        exists|parent: Option<Seq<char>>|
            may_be_parent(path@, parent) && step@ == #[trigger] first_save_step(parent),
{
    let parent: Option<String> = parent_of(path);
    let ghost p = optional_text(parent);
    let step = match parent {
        Some(directory) => SaveStep::CreateDirectory(directory),
        None => SaveStep::Form,
    };
    assert(step@ == first_save_step(p));
    step
}

/// The first step to save the client's own settings, whose directory is there.
pub fn save_client_config() -> (step: SaveStep)
    ensures
        step@ == first_save_step(None),
{
    SaveStep::Form
}

impl SaveStep {
    /// The step after this one, once `outcome` has told what came of it; `path` is the
    /// path of the file.
    pub fn next(self, path: &str, outcome: Result<(), String>) -> (next: SaveStep)
        ensures
            next@ == save_step_after(path@, self@, told(outcome)),
    {
        match (self, outcome) {
            (SaveStep::CreateDirectory(_), Ok(())) => SaveStep::Form,
            (SaveStep::CreateDirectory(directory), Err(reason)) => SaveStep::Finished(
                Err(
                    with_reason(
                        "設定ディレクトリの作成に失敗しました: ",
                        directory.as_str(),
                        reason.as_str(),
                    ),
                ),
            ),
            (SaveStep::Form, Ok(())) => SaveStep::Write,
            (SaveStep::Form, Err(reason)) => SaveStep::Finished(
                Err(join2("設定のシリアライズに失敗しました: ", reason.as_str())),
            ),
            (SaveStep::Write, Ok(())) => SaveStep::Finished(Ok(path.to_owned())),
            (SaveStep::Write, Err(reason)) => SaveStep::Finished(
                Err(
                    with_reason(
                        "設定ファイルの書き込みに失敗しました: ",
                        path,
                        reason.as_str(),
                    ),
                ),
            ),
            (SaveStep::Finished(result), _) => SaveStep::Finished(result),
        }
    }
}

/// Saving succeeds exactly when each of its steps does, and ends with the path of the
/// file. Nothing is written where an earlier step failed.
pub proof fn saving_succeeds_when_every_step_does(
    path: Seq<char>,
    parent: Option<Seq<char>>,
    created: Result<(), Seq<char>>,
    formed: Result<(), Seq<char>>,
    written: Result<(), Seq<char>>,
)
    ensures
        ({
            let first = first_save_step(parent);
            let second = if parent is Some {
                save_step_after(path, first, created)
            } else {
                first
            };
            let third = save_step_after(path, second, formed);
            let last = save_step_after(path, third, written);
            let prepared = (parent is None || created is Ok) && formed is Ok;
            &&& last is Finished
            &&& third == SaveStepView::Write <==> prepared
            &&& last == SaveStepView::Finished(Ok(path)) <==> prepared && written is Ok
        }),
{
}

/// The settings with another directory for recordings and everything else unchanged.
pub fn with_save_path(config: Config, directory: String) -> (r: Config)
    ensures
        r.save_path == Some(directory),
        r.buffer_size_frames == config.buffer_size_frames,
{
    Config { save_path: Some(directory), buffer_size_frames: config.buffer_size_frames }
}

/// Settings that stand in a file are loaded as they stand there, each of them and
/// whichever are set; a file that is missing, unreadable or malformed gives none.
pub proof fn settings_are_loaded_as_they_stand(file: ConfigFile, loaded: Config)
    requires
        call_ensures(load_config_from_path, (file,), loaded) || call_ensures(
            load_config,
            (file,),
            loaded,
        ),
    ensures
        file matches ConfigFile::Parsed(config) ==> loaded.save_path == config.save_path
            && loaded.buffer_size_frames == config.buffer_size_frames,
        !(file is Parsed) ==> loaded.save_path is None && loaded.buffer_size_frames is None,
{
}

/// What is saved after a change of the directory for recordings is loaded again with
/// that directory, and with everything else as it was before the change.
pub proof fn a_saved_directory_is_loaded_again(
    before: ConfigFile,
    loaded: Config,
    directory: String,
    saved: Config,
    again: Config,
)
    requires
        call_ensures(load_config_from_path, (before,), loaded),
        call_ensures(with_save_path, (loaded, directory), saved),
        call_ensures(load_config_from_path, (ConfigFile::Parsed(saved),), again),
    ensures
        again.save_path == Some(directory),
        before matches ConfigFile::Parsed(config) ==> again.buffer_size_frames
            == config.buffer_size_frames,
        !(before is Parsed) ==> again.buffer_size_frames is None,
{
}

/// The legacy file counts exactly where the shared one does not exist: whatever is in
/// the other file makes no difference.
pub proof fn one_file_alone_counts(
    shared_is_file: bool,
    shared: ConfigFile,
    legacy: ConfigFile,
    other: ConfigFile,
    loaded: Config,
    with_other: Config,
    alone: Config,
)
    requires
        call_ensures(load_with_legacy_fallback, (shared_is_file, shared, legacy), loaded),
        shared_is_file ==> call_ensures(
            load_with_legacy_fallback,
            (true, shared, other),
            with_other,
        ),
        !shared_is_file ==> call_ensures(
            load_with_legacy_fallback,
            (false, other, legacy),
            with_other,
        ),
        call_ensures(
            load_config_from_path,
            (if shared_is_file {
                shared
            } else {
                legacy
            },),
            alone,
        ),
    ensures
        loaded == with_other,
        loaded == alone,
{
}

/// The settings that nobody has set hold nothing.
pub proof fn default_settings_are_empty(config: Config)
    requires
        call_ensures(<Config as Default>::default, (), config),
    ensures
        config.save_path is None,
        config.buffer_size_frames is None,
{
}

/// The names under which the shared settings lie.
pub proof fn settings_have_their_names(path: String)
    requires
        call_ensures(shared_config_path, (None,), path),
    ensures
        path@ == "audio_rec_cli.json"@,
        CONFIG_FILE_NAME@ == "audio_rec_cli.json"@,
{
}

/// The client's own settings lie in the directory of the program, wherever a slash
/// stands before its name.
pub proof fn client_settings_lie_beside_the_program(
    program: &str,
    directory: Seq<char>,
    path: String,
)
    requires
        call_ensures(client_config_path, (Some(program),), path),
        !may_be_share(program@),
        is_file_in(program@, directory, '/'),
        joins_plainly(directory),
    ensures
        may_be_joined(directory, "audio_rec_cli.json"@, path@),
{
    assert forall|parent: Option<Seq<char>>| #[trigger]
        may_be_parent(program@, parent) implies program_directory(parent) == directory by {
        files_lie_before_a_slash(program@, directory, parent);
        reveal_strlit(".");
        if parent is None || parent->0.len() == 0 {
            assert(directory == "."@);
            assert(directory.last() == '.');
        }
    }
}

/// Each step of saving that fails ends it, and tells what was being done, of what and
/// why, each whole and unchanged.
pub proof fn saving_tells_what_failed(
    path: &str,
    step: SaveStep,
    reason: String,
    next: SaveStep,
)
    requires
        call_ensures(SaveStep::next, (step, path, Err(reason)), next),
    ensures
        step matches SaveStep::CreateDirectory(directory) ==> (next matches SaveStep::Finished(
            Err(m),
        ) && m@ =~= "設定ディレクトリの作成に失敗しました: "@ + directory@ + " ("@ + reason@
            + ")"@),
        step is Form ==> (next matches SaveStep::Finished(Err(m)) && m@
            =~= "設定のシリアライズに失敗しました: "@ + reason@),
        step is Write ==> (next matches SaveStep::Finished(Err(m)) && m@
            =~= "設定ファイルの書き込みに失敗しました: "@ + path@ + " ("@ + reason@ + ")"@),
{
    assert(next@ == save_step_after(path@, step@, Err(reason@)));
}

/// Each step of saving that succeeds leads to the next: the directory, the form, the
/// file, and the path of the file.
pub proof fn saving_takes_every_step_in_order(path: &str, step: SaveStep, next: SaveStep)
    requires
        call_ensures(SaveStep::next, (step, path, Ok(())), next),
    ensures
        step is CreateDirectory ==> next is Form,
        step is Form ==> next is Write,
        step is Write ==> (next matches SaveStep::Finished(Ok(p)) && p@ == path@),
{
    assert(next@ == save_step_after(path@, step@, Ok(())));
}

/// Saving begins with the directory of the file: what stands before a slash and its
/// name.
pub proof fn saving_begins_with_the_directory(
    path: &str,
    directory: Seq<char>,
    step: SaveStep,
)
    requires
        call_ensures(save_config, (path,), step),
        !may_be_share(path@),
        is_file_in(path@, directory, '/'),
    ensures
        step matches SaveStep::CreateDirectory(d) && d@ == directory,
{
    let parent = choose|parent: Option<Seq<char>>|
        may_be_parent(path@, parent) && step@ == #[trigger] first_save_step(parent);
    files_lie_before_a_slash(path@, directory, parent);
    reveal_strlit(".");
    if parent is None || parent->0.len() == 0 {
        assert(directory == "."@);
        assert(directory.last() == '.');
    }
}

/// The shared settings lie in the file `audio_rec_cli.json` of the directory `AviUtl2`,
/// right below the directory for program data.
pub proof fn shared_settings_lie_below_the_program_data(base: &str, path: String)
    requires
        call_ensures(shared_config_path, (Some(base),), path),
        !may_be_literal(base@),
    ensures
        exists|directory: Seq<char>| #[trigger]
            may_be_joined(base@, "AviUtl2"@, directory) && may_be_joined(
                directory,
                "audio_rec_cli.json"@,
                path@,
            ),
        base@.is_prefix_of(path@),
{
    shared_path_lies_below_its_base(base@, path@);
}

/// The client's own settings are put into their form first: their directory is that of
/// the program.
pub proof fn client_settings_need_no_directory(step: SaveStep)
    requires
        call_ensures(save_client_config, (), step),
    ensures
        step is Form,
{
}

} // verus!
