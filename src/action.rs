//! The custom-action executor: it resolves an action by index, settles which
//! file the command is run on, substitutes the `{file}` placeholder and says
//! how the command is launched as a detached background process. Creating
//! files and processes is left to the caller, which follows the plan.
use vstd::prelude::*;
use crate::config::{
    is_separator, join_path, join_path_text, separator, text_option_view, ActionView, AppConfig, ConfigLoad,
    CustomAction, Platform, config_file_in,
};
use crate::image::{decode_image_data, decoded_image};
use crate::text::{
    decimal, decimal_text, lemma_decimal_injective, lemma_replace_absent,
    lemma_replace_skips_prefix, occurs_at, replace_all, replace_text,
};

verus! {

/// The placeholder that stands for the image path in a command template.
pub open spec fn placeholder() -> Seq<char> {
    "{file}"@
}

/// A command template with its placeholder replaced by `path`.
pub open spec fn substituted(template: Seq<char>, path: Seq<char>) -> Seq<char> {
    replace_all(template, placeholder(), path)
}

/// `command` embedded in single quotes, each inner quote escaped, and run
/// through `nohup` in the background with every stream sent to /dev/null.
pub open spec fn background_script(command: Seq<char>) -> Seq<char> {
    "nohup sh -c '"@ + replace_all(command, "'"@, "'\"'\"'"@) + "' >/dev/null 2>&1 &"@
}

/// The program that launches a command on `platform`.
pub open spec fn launch_program(platform: Platform) -> Seq<char> {
    if platform == Platform::Windows {
        "cmd"@
    } else {
        "sh"@
    }
}

/// The arguments handed to `launch_program(platform)` to launch `command`.
pub open spec fn launch_args(platform: Platform, command: Seq<char>) -> Seq<Seq<char>> {
    if platform == Platform::Windows {
        seq!["/C"@, command]
    } else {
        seq!["-c"@, background_script(command)]
    }
}

/// The name of the temporary image file made for stamp `stamp`.
pub open spec fn temp_file_name(stamp: nat) -> Seq<char> {
    "markpix-"@ + decimal(stamp) + ".png"@
}

/// The directory that holds the temporary image files.
pub open spec fn temp_image_dir(platform: Platform, temp_dir: Seq<char>) -> Seq<char> {
    join_path(platform, temp_dir, "markpix"@)
}

/// The path of the temporary image file for `stamp`.
pub open spec fn temp_file_path(platform: Platform, temp_dir: Seq<char>, stamp: nat) -> Seq<
    char,
> {
    join_path(platform, temp_image_dir(platform, temp_dir), temp_file_name(stamp))
}

/// A program and its arguments.
pub struct LaunchCommand {
    pub program: String,
    pub args: Vec<String>,
}

impl LaunchCommand {
    pub open spec fn launches(&self, platform: Platform, command: Seq<char>) -> bool {
        &&& self.program@ == launch_program(platform)
        &&& self.args@.map_values(|a: String| a@) == launch_args(platform, command)
    }
}

/// The file an action runs on.
pub enum ImageFile {
    /// A file the caller named.
    Existing(String),
    /// A file still to be made: `bytes` written at `path`, inside `dir`.
    Temporary { dir: String, path: String, bytes: Vec<u8> },
}

impl ImageFile {
    pub open spec fn path_view(&self) -> Seq<char> {
        match self {
            ImageFile::Existing(p) => p@,
            ImageFile::Temporary { path, .. } => path@,
        }
    }

    /// The path of the file.
    pub fn path(&self) -> (r: &str)
        ensures
            r@ == self.path_view(),
    {
        match self {
            ImageFile::Existing(p) => p.as_str(),
            ImageFile::Temporary { path, .. } => path.as_str(),
        }
    }
}

/// What running a custom action takes: the file to provide, the command
/// with the file's path in it and how to launch that command.
pub struct ActionPlan {
    pub action_name: String,
    pub file: ImageFile,
    pub command: String,
    pub launch: LaunchCommand,
}

impl ActionPlan {
    /// The plan runs `action` on the file at `path` on `platform`.
    pub open spec fn runs(&self, action: ActionView, path: Seq<char>, platform: Platform) -> bool {
        &&& self.action_name@ == action.name
        &&& self.file.path_view() == path
        &&& self.command@ == substituted(action.command, path)
        &&& self.launch.launches(platform, self.command@)
    }

    /// The plan makes a temporary file in `dir` holding `bytes`.
    pub open spec fn writes_temporary(&self, dir: Seq<char>, bytes: Seq<u8>) -> bool {
        match self.file {
            ImageFile::Temporary { dir: d, bytes: b, .. } => d@ == dir && b@ == bytes,
            ImageFile::Existing(_) => false,
        }
    }

    /// The confirmation reported once the command has been launched.
    pub fn started_message(&self) -> (r: String)
        ensures
            r@ == "Started: "@ + self.action_name@,
    {
        let mut r = String::from_str("Started: ");
        r.append(self.action_name.as_str());
        r
    }
}

/// Why a custom action could not be run.
#[derive(Clone, Debug, PartialEq, Eq)]
pub enum ActionError {
    /// No action has the requested index.
    InvalidIndex,
    /// Neither an image path nor image data was given.
    MissingImage,
    /// The image data is not valid base64; the decoder's description.
    InvalidImageData(String),
    /// Every stamp for a temporary file name has been handed out.
    TempNamesExhausted,
    /// The temporary directory could not be created; the system's words.
    TempDir(String),
    /// The temporary file could not be written; the system's words.
    TempWrite(String),
    /// The system refused to start the command; its words.
    Spawn(String),
}

impl ActionError {
    /// A description of the error for the user.
    pub fn message(&self) -> (r: String)
        ensures
            self is InvalidIndex ==> r@ == "invalid action index"@,
            self is MissingImage ==> r@ == "an image path or image data is required"@,
            self matches ActionError::InvalidImageData(e) ==> r@ == "base64 decoding failed: "@
                + e@,
            self is TempNamesExhausted ==> r@ == "no temporary file name is left"@,
            self matches ActionError::TempDir(e) ==> r@
                == "failed to create the temporary directory: "@ + e@,
            self matches ActionError::TempWrite(e) ==> r@ == "failed to write the temporary file: "@
                + e@,
            self matches ActionError::Spawn(e) ==> r@ == "failed to execute command: "@ + e@,
    {
        match self {
            ActionError::InvalidIndex => String::from_str("invalid action index"),
            ActionError::MissingImage => String::from_str("an image path or image data is required"),
            ActionError::InvalidImageData(e) => {
                let mut r = String::from_str("base64 decoding failed: ");
                r.append(e.as_str());
                r
            },
            ActionError::TempNamesExhausted => String::from_str("no temporary file name is left"),
            ActionError::TempDir(e) => {
                let mut r = String::from_str("failed to create the temporary directory: ");
                r.append(e.as_str());
                r
            },
            ActionError::TempWrite(e) => {
                let mut r = String::from_str("failed to write the temporary file: ");
                r.append(e.as_str());
                r
            },
            ActionError::Spawn(e) => {
                let mut r = String::from_str("failed to execute command: ");
                r.append(e.as_str());
                r
            },
        }
    }
}

/// `template` with every `{file}` replaced by `path`; no quoting is added.
pub fn substitute_placeholder(template: &str, path: &str) -> (r: String)
    ensures
        r@ == substituted(template@, path@),
{
    proof {
        reveal_strlit("{file}");
    }
    replace_text(template, "{file}", path)
}

/// How `command` is launched as a detached background process on `platform`.
pub fn launch_command(platform: Platform, command: &str) -> (r: LaunchCommand)
    ensures
        r.launches(platform, command@),
{
    if platform == Platform::Windows {
        let args = vec![String::from_str("/C"), String::from_str(command)];
        let r = LaunchCommand { program: String::from_str("cmd"), args };
        assert(r.args@.map_values(|a: String| a@) =~= launch_args(platform, command@));
        r
    } else {
        proof {
            reveal_strlit("'");
        }
        let escaped = replace_text(command, "'", "'\"'\"'");
        let mut script = String::from_str("nohup sh -c '");
        script.append(escaped.as_str());
        script.append("' >/dev/null 2>&1 &");
        let args = vec![String::from_str("-c"), script];
        let r = LaunchCommand { program: String::from_str("sh"), args };
        assert(r.args@.map_values(|a: String| a@) =~= launch_args(platform, command@));
        r
    }
}

/// The path of the temporary image file for `stamp` under `temp_dir`.
pub fn temp_file_path_text(temp_dir: &str, stamp: u64, platform: Platform) -> (r: String)
    ensures
        r@ == temp_file_path(platform, temp_dir@, stamp as nat),
{
    let dir = join_path_text(platform, temp_dir, "markpix");
    let mut name = String::from_str("markpix-");
    let digits = decimal_text(stamp);
    name.append(digits.as_str());
    name.append(".png");
    join_path_text(platform, dir.as_str(), name.as_str())
}

/// The process-wide state: the image given on the command line, the
/// configuration in force, the command-line overrides, and the last stamp
/// handed out for a temporary file name.
pub struct AppState {
    pub initial_image_path: Option<String>,
    pub config: AppConfig,
    pub cli_config_path: Option<String>,
    pub cli_output_pattern: Option<String>,
    pub last_temp_stamp: u64,
}

impl AppState {
    pub fn new(
        initial_image_path: Option<String>,
        config: AppConfig,
        cli_config_path: Option<String>,
        cli_output_pattern: Option<String>,
    ) -> (r: AppState)
        ensures
            r.initial_image_path == initial_image_path,
            r.config == config,
            r.cli_config_path == cli_config_path,
            r.cli_output_pattern == cli_output_pattern,
            r.last_temp_stamp == 0,
    {
        AppState {
            initial_image_path,
            config,
            cli_config_path,
            cli_output_pattern,
            last_temp_stamp: 0,
        }
    }

    /// The image path given on the command line.
    pub fn initial_image(&self) -> (r: Option<String>)
        ensures
            text_option_view(r) == text_option_view(self.initial_image_path),
    {
        match &self.initial_image_path {
            Some(p) => Some(p.clone()),
            None => None,
        }
    }

    /// The output pattern given on the command line.
    pub fn cli_output_pattern(&self) -> (r: Option<String>)
        ensures
            text_option_view(r) == text_option_view(self.cli_output_pattern),
    {
        match &self.cli_output_pattern {
            Some(p) => Some(p.clone()),
            None => None,
        }
    }

    /// A copy of the configured actions, in order.
    pub fn custom_actions(&self) -> (r: Vec<CustomAction>)
        ensures
            r@.map_values(|a: CustomAction| a@) == self.config@.custom_actions,
    {
        let actions = &self.config.custom_actions;
        let mut r: Vec<CustomAction> = Vec::new();
        let mut i: usize = 0;
        while i < actions.len()
            invariant
                i <= actions@.len(),
                r@.len() == i,
                forall|k: int| 0 <= k < i ==> #[trigger] r@[k]@ == actions@[k]@,
            decreases actions@.len() - i,
        {
            r.push(actions[i].duplicate());
            i = i + 1;
        }
        assert(r@.map_values(|a: CustomAction| a@) =~= actions@.map_values(|a: CustomAction| a@));
        r
    }

    /// The load that a reload of the configuration performs: from the file
    /// named on the command line, else from the usual place.
    pub fn reload_source(&self, platform: Platform) -> (r: ConfigLoad)
        ensures
            match self.cli_config_path {
                Some(p) => r.path@ == p@,
                None => exists|d: Option<Seq<char>>| r.path@ == config_file_in(platform, d),
            },
    {
        match &self.cli_config_path {
            Some(p) => AppConfig::load_from(p.as_str()),
            None => AppConfig::load(platform),
        }
    }

    /// Puts `config` in force in place of the current configuration.
    pub fn replace_config(&mut self, config: AppConfig)
        ensures
            final(self).config == config,
            final(self).initial_image_path == old(self).initial_image_path,
            final(self).cli_config_path == old(self).cli_config_path,
            final(self).cli_output_pattern == old(self).cli_output_pattern,
            final(self).last_temp_stamp == old(self).last_temp_stamp,
    {
        self.config = config;
    }

    /// Plans custom action `action_index` on an image given by its path or,
    /// failing that, by its data (a data URI or bare base64), which is to be
    /// written to a fresh temporary file under `temp_dir`. `now` is the
    /// current time in milliseconds. Nothing is created or launched here:
    /// an error leaves no effect to undo, and only a plan for a temporary
    /// file uses up a stamp.
    pub fn execute_custom_action(
        &mut self,
        action_index: usize,
        image_path: Option<String>,
        image_data: Option<String>,
        temp_dir: &str,
        now: u64,
        platform: Platform,
    ) -> (r: Result<ActionPlan, ActionError>)
        ensures
            final(self).config == old(self).config,
            final(self).initial_image_path == old(self).initial_image_path,
            final(self).cli_config_path == old(self).cli_config_path,
            final(self).cli_output_pattern == old(self).cli_output_pattern,
            r is Ok || final(self).last_temp_stamp == old(self).last_temp_stamp,
            action_index >= old(self).config.custom_actions@.len() ==> r
                == Err::<ActionPlan, ActionError>(ActionError::InvalidIndex),
            action_index < old(self).config.custom_actions@.len() ==> {
                let action = old(self).config@.custom_actions[action_index as int];
                match image_path {
                    Some(p) => {
                        &&& r matches Ok(plan) && plan.runs(action, p@, platform)
                            && plan.file is Existing
                        &&& final(self).last_temp_stamp == old(self).last_temp_stamp
                    },
                    None => match image_data {
                        None => r == Err::<ActionPlan, ActionError>(ActionError::MissingImage),
                        Some(d) => match decoded_image(d@) {
                            None => r matches Err(ActionError::InvalidImageData(_)),
                            Some(bytes) => if old(self).last_temp_stamp == u64::MAX {
                                r == Err::<ActionPlan, ActionError>(
                                    ActionError::TempNamesExhausted,
                                )
                            } else {
                                &&& final(self).last_temp_stamp > old(self).last_temp_stamp
                                &&& now > old(self).last_temp_stamp
                                    ==> final(self).last_temp_stamp == now
                                &&& now <= old(self).last_temp_stamp
                                    ==> final(self).last_temp_stamp == old(self).last_temp_stamp + 1
                                &&& r matches Ok(plan) && plan.runs(
                                    action,
                                    temp_file_path(
                                        platform,
                                        temp_dir@,
                                        final(self).last_temp_stamp as nat,
                                    ),
                                    platform,
                                ) && plan.writes_temporary(temp_image_dir(platform, temp_dir@), bytes)
                            },
                        },
                    },
                }
            },
    {
        if action_index >= self.config.custom_actions.len() {
            return Err(ActionError::InvalidIndex);
        }
        let action = self.config.custom_actions[action_index].duplicate();
        let file = match image_path {
            Some(p) => ImageFile::Existing(p),
            None => match image_data {
                None => {
                    return Err(ActionError::MissingImage);
                },
                Some(d) => {
                    let bytes = match decode_image_data(d.as_str()) {
                        Ok(b) => b,
                        Err(e) => {
                            return Err(ActionError::InvalidImageData(e));
                        },
                    };
                    let stamp = match self.next_temp_stamp(now) {
                        Some(s) => s,
                        None => {
                            return Err(ActionError::TempNamesExhausted);
                        },
                    };
                    let dir = join_path_text(platform, temp_dir, "markpix");
                    let path = temp_file_path_text(temp_dir, stamp, platform);
                    ImageFile::Temporary { dir, path, bytes }
                },
            },
        };
        let command = substitute_placeholder(action.command.as_str(), file.path());
        let launch = launch_command(platform, command.as_str());
        Ok(ActionPlan { action_name: action.name, file, command, launch })
    }

    /// A stamp larger than every one handed out before: `now` when it is,
    /// else the next one up. `None` once the largest stamp has been used.
    pub fn next_temp_stamp(&mut self, now: u64) -> (r: Option<u64>)
        ensures
            final(self).config == old(self).config,
            final(self).initial_image_path == old(self).initial_image_path,
            final(self).cli_config_path == old(self).cli_config_path,
            final(self).cli_output_pattern == old(self).cli_output_pattern,
            r is None <==> old(self).last_temp_stamp == u64::MAX,
            r is None ==> final(self).last_temp_stamp == old(self).last_temp_stamp,
            r matches Some(s) ==> s > old(self).last_temp_stamp && final(self).last_temp_stamp
                == s,
            r matches Some(s) ==> (now > old(self).last_temp_stamp ==> s == now),
            r matches Some(s) ==> (now <= old(self).last_temp_stamp ==> s
                == old(self).last_temp_stamp + 1),
    {
        if now > self.last_temp_stamp {
            self.last_temp_stamp = now;
            Some(now)
        } else if self.last_temp_stamp < u64::MAX {
            self.last_temp_stamp = self.last_temp_stamp + 1;
            Some(self.last_temp_stamp)
        } else {
            None
        }
    }
}

/// A template holding the placeholder exactly once becomes the same text
/// with `path` in the placeholder's place and nothing else altered.
pub proof fn lemma_single_placeholder(before: Seq<char>, after: Seq<char>, path: Seq<char>)
    requires
        forall|j: int|
            #![trigger occurs_at(before + placeholder() + after, placeholder(), j)]
            0 <= j && j != before.len() ==> !occurs_at(
                before + placeholder() + after,
                placeholder(),
                j,
            ),
    ensures
        substituted(before + placeholder() + after, path) == before + path + after,
{
    reveal_strlit("{file}");
    let pat = placeholder();
    let t = before + pat + after;
    let rest = pat + after;
    assert(t =~= before + rest);
    lemma_replace_skips_prefix(before, rest, pat, path);
    assert(rest.take(pat.len() as int) =~= pat);
    assert(rest.skip(pat.len() as int) =~= after);
    assert forall|j: int| 0 <= j < after.len() implies !occurs_at(after, pat, j) by {
        let k = before.len() + pat.len() + j;
        assert(!occurs_at(t, pat, k));
        if j + pat.len() <= after.len() {
            assert(t.subrange(k, k + pat.len()) =~= after.subrange(j, j + pat.len()));
        }
    }
    lemma_replace_absent(after, pat, path);
    assert(before + (path + after) =~= before + path + after);
}

/// Distinct stamps give distinct temporary file paths, so no two temporary
/// files planned by one state share a name, however close in time.
pub proof fn lemma_temp_paths_distinct(platform: Platform, temp_dir: Seq<char>, a: nat, b: nat)
    requires
        a != b,
    ensures
        temp_file_path(platform, temp_dir, a) != temp_file_path(platform, temp_dir, b),
{
    reveal_strlit("markpix-");
    reveal_strlit(".png");
    let base = temp_image_dir(platform, temp_dir);
    let na = temp_file_name(a);
    let nb = temp_file_name(b);
    if temp_file_path(platform, temp_dir, a) == temp_file_path(platform, temp_dir, b) {
        let pre = if base.len() == 0 {
            Seq::<char>::empty()
        } else if is_separator(platform, base.last()) {
            base
        } else {
            base + seq![separator(platform)]
        };
        assert(temp_file_path(platform, temp_dir, a) =~= pre + na);
        assert(temp_file_path(platform, temp_dir, b) =~= pre + nb);
        assert(na =~= (pre + na).skip(pre.len() as int));
        assert(nb =~= (pre + nb).skip(pre.len() as int));
        assert(decimal(a) =~= na.subrange(8, na.len() - 4));
        assert(decimal(b) =~= nb.subrange(8, nb.len() - 4));
        lemma_decimal_injective(a, b);
    }
}

} // verus!
