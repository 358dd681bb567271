//! The application configuration: custom actions, defaults, the location of
//! the configuration file and the decisions taken while loading it.
use vstd::prelude::*;

verus! {

/// The operating-system family the application runs on.
#[derive(Clone, Copy, Debug, PartialEq, Eq, Structural)]
pub enum Platform {
    Windows,
    MacOs,
    Linux,
    Other,
}

/// A user-defined shell command run against an image; `{file}` in `command`
/// stands for the image's path.
#[derive(Clone, Debug, Default)]
pub struct CustomAction {
    pub name: String,
    pub command: String,
    pub icon: Option<String>,
}

pub struct ActionView {
    pub name: Seq<char>,
    pub command: Seq<char>,
    pub icon: Option<Seq<char>>,
}

pub open spec fn text_option_view(o: Option<String>) -> Option<Seq<char>> {
    match o {
        Some(s) => Some(s@),
        None => None,
    }
}

impl View for CustomAction {
    type V = ActionView;

    open spec fn view(&self) -> ActionView {
        ActionView { name: self.name@, command: self.command@, icon: text_option_view(self.icon) }
    }
}

fn copy_text_option(o: &Option<String>) -> (r: Option<String>)
    ensures
        text_option_view(r) == text_option_view(*o),
{
    match o {
        Some(s) => Some(s.clone()),
        None => None,
    }
}

impl CustomAction {
    /// A copy of this action.
    pub fn duplicate(&self) -> (r: CustomAction)
        ensures
            r@ == self@,
    {
        CustomAction {
            name: self.name.clone(),
            command: self.command.clone(),
            icon: copy_text_option(&self.icon),
        }
    }
}

/// The whole configuration: colour theme, the pattern for output file names
/// and the ordered list of custom actions.
#[derive(Clone, Debug)]
pub struct AppConfig {
    pub theme: String,
    pub output_pattern: String,
    pub custom_actions: Vec<CustomAction>,
}

pub struct ConfigView {
    pub theme: Seq<char>,
    pub output_pattern: Seq<char>,
    pub custom_actions: Seq<ActionView>,
}

impl View for AppConfig {
    type V = ConfigView;

    open spec fn view(&self) -> ConfigView {
        ConfigView {
            theme: self.theme@,
            output_pattern: self.output_pattern@,
            custom_actions: self.custom_actions@.map_values(|a: CustomAction| a@),
        }
    }
}

/// The configuration used when none has been written: automatic theme, the
/// standard output pattern, no actions.
pub open spec fn default_config() -> ConfigView {
    ConfigView {
        theme: "auto"@,
        output_pattern: "{input_file_base}_{YYYY_MM_DD-hh-mm-ss}_markpix.png"@,
        custom_actions: Seq::empty(),
    }
}

/// The command that shows an image in the platform's file manager.
pub open spec fn reveal_command(platform: Platform) -> Seq<char> {
    match platform {
        Platform::Windows => "explorer /select, \"{file}\""@,
        Platform::MacOs => "open -R \"{file}\""@,
        _ => "xdg-open \"$(dirname \"{file}\")\""@,
    }
}

/// The default configuration seeded with one example action.
pub open spec fn example_config(platform: Platform) -> ConfigView {
    ConfigView {
        custom_actions: seq![
            ActionView {
                name: "Open containing folder"@,
                command: reveal_command(platform),
                icon: Some("folder"@),
            },
        ],
        ..default_config()
    }
}

/// The separator that `platform` puts between path components.
pub open spec fn separator(platform: Platform) -> char {
    if platform == Platform::Windows {
        '\\'
    } else {
        '/'
    }
}

/// A character that ends a path component on `platform`.
pub open spec fn is_separator(platform: Platform, c: char) -> bool {
    c == '/' || (platform == Platform::Windows && c == '\\')
}

/// The directory `dir` joined with the relative name `name` as
/// `PathBuf::push` does on `platform`: a separator is put between them
/// unless `dir` is empty or already ends with one.
pub open spec fn join_path(platform: Platform, dir: Seq<char>, name: Seq<char>) -> Seq<char> {
    if dir.len() == 0 {
        name
    } else if is_separator(platform, dir.last()) {
        dir + name
    } else {
        dir + seq![separator(platform)] + name
    }
}

/// The configuration file under a configuration directory (`.` when the
/// platform has none).
pub open spec fn config_file_in(platform: Platform, dir: Option<Seq<char>>) -> Seq<char> {
    let base = match dir {
        Some(d) => d,
        None => "."@,
    };
    join_path(platform, join_path(platform, base, "markpix"@), "config.toml"@)
}

impl Default for AppConfig {
    fn default() -> (r: AppConfig)
        ensures
            r@ == default_config(),
    {
        let r = AppConfig {
            theme: String::from_str("auto"),
            output_pattern: String::from_str("{input_file_base}_{YYYY_MM_DD-hh-mm-ss}_markpix.png"),
            custom_actions: Vec::new(),
        };
        assert(r@.custom_actions =~= Seq::<ActionView>::empty());
        r
    }
}

/// Relies on `dirs::config_dir`: the user's configuration directory, which
/// depends on the environment, so nothing is stated of it. A directory whose
/// name is not valid Unicode comes back with the invalid parts replaced by
/// U+FFFD, as `Path::to_string_lossy` does.
#[verifier::external_body]
fn user_config_dir() -> (r: Option<String>)
{
    dirs::config_dir().map(|p| p.to_string_lossy().to_string())
}

/// `dir` joined with the relative name `name` on `platform` (see `join_path`).
pub fn join_path_text(platform: Platform, dir: &str, name: &str) -> (r: String)
    ensures
        r@ == join_path(platform, dir@, name@),
{
    let len = dir.unicode_len();
    if len == 0 {
        return String::from_str(name);
    }
    let last = dir.get_char(len - 1);
    let mut out = String::from_str(dir);
    if last == '/' || (platform == Platform::Windows && last == '\\') {
        out.append(name);
    } else if platform == Platform::Windows {
        out.append("\\");
        out.append(name);
        proof {
            reveal_strlit("\\");
        }
    } else {
        out.append("/");
        out.append(name);
        proof {
            reveal_strlit("/");
        }
    }
    proof {
        assert(dir@.last() == last);
        assert(out@ =~= join_path(platform, dir@, name@));
    }
    out
}

/// The path of the configuration file given the user's configuration
/// directory `dir`, if the platform has one.
pub fn config_file_path(dir: Option<String>, platform: Platform) -> (r: String)
    ensures
        r@ == config_file_in(platform, text_option_view(dir)),
{
    proof {
        reveal_strlit(".");
    }
    let base = match &dir {
        Some(d) => d.clone(),
        None => String::from_str("."),
    };
    let sub = join_path_text(platform, base.as_str(), "markpix");
    join_path_text(platform, sub.as_str(), "config.toml")
}

/// A load of the configuration file at `path` that has been asked for: the
/// caller reads and parses that file, then hands the outcome to `finish`.
pub struct ConfigLoad {
    pub path: String,
}

/// What a finished load yields: the configuration in force, and the file it
/// must be written to when it was made up from the defaults.
pub struct LoadedConfig {
    pub config: AppConfig,
    pub write_back: Option<String>,
}

impl AppConfig {
    /// The default configuration with one example action for `platform`.
    pub fn default_with_examples(platform: Platform) -> (r: AppConfig)
        ensures
            r@ == example_config(platform),
    {
        let mut config = AppConfig::default();
        let command = match platform {
            Platform::Windows => String::from_str("explorer /select, \"{file}\""),
            Platform::MacOs => String::from_str("open -R \"{file}\""),
            _ => String::from_str("xdg-open \"$(dirname \"{file}\")\""),
        };
        let action = CustomAction {
            name: String::from_str("Open containing folder"),
            command,
            icon: Some(String::from_str("folder")),
        };
        config.custom_actions = vec![action];
        assert(config@.custom_actions =~= example_config(platform).custom_actions);
        config
    }

    /// The path of the configuration file in the user's configuration
    /// directory, which is read from the environment.
    pub fn config_path(platform: Platform) -> (r: String)
        ensures
            exists|d: Option<Seq<char>>| r@ == config_file_in(platform, d),
    {
        let dir = user_config_dir();
        config_file_path(dir, platform)
    }

    /// Starts a load of the configuration file at its usual place.
    pub fn load(platform: Platform) -> (r: ConfigLoad)
        ensures
            exists|d: Option<Seq<char>>| r.path@ == config_file_in(platform, d),
    {
        ConfigLoad { path: AppConfig::config_path(platform) }
    }

    /// Starts a load of the configuration file at `path`.
    pub fn load_from(path: &str) -> (r: ConfigLoad)
        ensures
            r.path@ == path@,
    {
        ConfigLoad { path: String::from_str(path) }
    }
}

impl ConfigLoad {
    /// Ends the load. `parsed` is the file's configuration when the file
    /// exists, could be read and parsed; otherwise the example configuration
    /// takes its place and is to be written back to the same path.
    pub fn finish(self, parsed: Option<AppConfig>, platform: Platform) -> (r: LoadedConfig)
        ensures
            match parsed {
                Some(c) => r.config@ == c@ && r.write_back is None,
                None => r.config@ == example_config(platform) && r.write_back == Some(self.path),
            },
    {
        match parsed {
            Some(c) => LoadedConfig { config: c, write_back: None },
            None => LoadedConfig {
                config: AppConfig::default_with_examples(platform),
                write_back: Some(self.path),
            },
        }
    }
}

} // verus!
