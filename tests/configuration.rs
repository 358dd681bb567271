use markpix::action::AppState;
use markpix::clipboard::{clipboard_plan, open_directory_command, ClipboardNext};
use markpix::config::{config_file_path, join_path_text, AppConfig, CustomAction, Platform};

#[test]
fn default_configuration() {
    let c = AppConfig::default();
    assert_eq!(c.theme, "auto");
    assert_eq!(c.output_pattern, "{input_file_base}_{YYYY_MM_DD-hh-mm-ss}_markpix.png");
    assert!(c.custom_actions.is_empty());
}

#[test]
fn example_configuration_per_platform() {
    let l = AppConfig::default_with_examples(Platform::Linux);
    assert_eq!(l.custom_actions.len(), 1);
    assert_eq!(l.custom_actions[0].name, "Open containing folder");
    assert_eq!(l.custom_actions[0].command, "xdg-open \"$(dirname \"{file}\")\"");
    assert_eq!(l.custom_actions[0].icon, Some("folder".to_string()));
    assert_eq!(l.theme, "auto");
    let m = AppConfig::default_with_examples(Platform::MacOs);
    assert_eq!(m.custom_actions[0].command, "open -R \"{file}\"");
    let w = AppConfig::default_with_examples(Platform::Windows);
    assert_eq!(w.custom_actions[0].command, "explorer /select, \"{file}\"");
}

#[test]
fn missing_config_is_seeded_and_then_kept() {
    let load = AppConfig::load_from("/tmp/none/config.toml");
    assert_eq!(load.path, "/tmp/none/config.toml");
    let loaded = load.finish(None, Platform::Linux);
    assert_eq!(loaded.write_back, Some("/tmp/none/config.toml".to_string()));
    assert_eq!(loaded.config.custom_actions.len(), 1);
    assert_eq!(loaded.config.custom_actions[0].name, "Open containing folder");
    let again = AppConfig::load_from("/tmp/none/config.toml").finish(Some(loaded.config.clone()), Platform::Linux);
    assert_eq!(again.write_back, None);
    assert_eq!(again.config.custom_actions.len(), 1);
    assert_eq!(again.config.custom_actions[0].name, "Open containing folder");
    assert_eq!(again.config.theme, loaded.config.theme);
}

#[test]
fn corrupt_config_falls_back_to_examples() {
    let loaded = AppConfig::load_from("/etc/markpix.toml").finish(None, Platform::MacOs);
    assert_eq!(loaded.config.custom_actions[0].command, "open -R \"{file}\"");
    assert_eq!(loaded.write_back, Some("/etc/markpix.toml".to_string()));
}

#[test]
fn parsed_config_is_used_as_is() {
    let mut c = AppConfig::default();
    c.theme = "dark".to_string();
    let loaded = AppConfig::load_from("c.toml").finish(Some(c), Platform::Linux);
    assert_eq!(loaded.config.theme, "dark");
    assert!(loaded.config.custom_actions.is_empty());
    assert_eq!(loaded.write_back, None);
}

#[test]
fn default_config_path() {
    let p = AppConfig::config_path(Platform::Linux);
    assert!(p.ends_with("/markpix/config.toml"));
    assert!(AppConfig::load(Platform::Linux).path.ends_with("/markpix/config.toml"));
}

#[test]
fn path_joining() {
    assert_eq!(join_path_text(Platform::Linux, "/a", "b"), "/a/b");
    assert_eq!(join_path_text(Platform::Linux, "/a/", "b"), "/a/b");
    assert_eq!(join_path_text(Platform::Linux, "", "b"), "b");
    assert_eq!(join_path_text(Platform::Linux, "/a\\", "b"), "/a\\/b");
    assert_eq!(join_path_text(Platform::Windows, "C:\\a", "b"), "C:\\a\\b");
    assert_eq!(join_path_text(Platform::Windows, "C:\\a\\", "b"), "C:\\a\\b");
    assert_eq!(join_path_text(Platform::Windows, "C:/a/", "b"), "C:/a/b");
}

#[test]
fn state_accessors_and_reload() {
    let mut state = AppState::new(Some("/i.png".to_string()), AppConfig::default(), Some("/c.toml".to_string()), Some("-".to_string()));
    assert_eq!(state.initial_image(), Some("/i.png".to_string()));
    assert_eq!(state.cli_output_pattern(), Some("-".to_string()));
    assert_eq!(state.reload_source(Platform::Linux).path, "/c.toml");
    state.replace_config(AppConfig::default_with_examples(Platform::Linux));
    let actions = state.custom_actions();
    assert_eq!(actions.len(), 1);
    assert_eq!(actions[0].name, "Open containing folder");
    let plain = AppState::new(None, AppConfig::default(), None, None);
    assert!(plain.reload_source(Platform::Linux).path.ends_with("markpix/config.toml"));
    assert_eq!(plain.initial_image(), None);
}

#[test]
fn duplicate_copies_every_field() {
    let a = CustomAction { name: "n".to_string(), command: "c {file}".to_string(), icon: Some("i".to_string()) };
    let b = a.duplicate();
    assert_eq!(b.name, "n");
    assert_eq!(b.command, "c {file}");
    assert_eq!(b.icon, Some("i".to_string()));
}

#[test]
fn linux_clipboard_falls_back_to_xclip() {
    let p = clipboard_plan(Platform::Linux, "/tmp");
    assert!(p.pipe_bytes && p.check_status);
    assert_eq!(p.staging_file, None);
    assert_eq!(p.attempts.len(), 2);
    assert_eq!(p.attempts[0].program, "wl-copy");
    assert_eq!(p.attempts[0].args, vec!["--type".to_string(), "image/png".to_string()]);
    assert_eq!(p.attempts[1].program, "xclip");
    assert_eq!(p.attempts[1].args, vec!["-selection", "clipboard", "-t", "image/png"].iter().map(|s| s.to_string()).collect::<Vec<_>>());
}

#[test]
fn mac_and_windows_clipboard_use_a_file() {
    let m = clipboard_plan(Platform::MacOs, "/tmp");
    assert_eq!(m.staging_file, Some("/tmp/markpix_clipboard.png".to_string()));
    assert_eq!(m.attempts[0].program, "osascript");
    assert_eq!(m.attempts[0].args[1], "set the clipboard to (read (POSIX file \"/tmp/markpix_clipboard.png\") as «class PNGf»)");
    let w = clipboard_plan(Platform::Windows, "C:\\T\\");
    assert_eq!(w.staging_file, Some("C:\\T\\markpix_clipboard.png".to_string()));
    assert_eq!(w.attempts[0].program, "powershell");
    assert_eq!(w.attempts[0].args[1], "Set-Clipboard -Path 'C:\\T\\markpix_clipboard.png'");
    assert!(clipboard_plan(Platform::Other, "/tmp").attempts.is_empty());
}

#[test]
fn open_directory_per_platform() {
    let c = open_directory_command(Platform::Linux, "/home").unwrap();
    assert_eq!(c.program, "xdg-open");
    assert_eq!(c.args, vec!["/home".to_string()]);
    assert_eq!(open_directory_command(Platform::MacOs, "/h").unwrap().program, "open");
    assert_eq!(open_directory_command(Platform::Windows, "/h").unwrap().program, "explorer");
    assert!(open_directory_command(Platform::Other, "/h").is_none());
}

#[test]
fn clipboard_steps_fall_through_in_order() {
    let p = clipboard_plan(Platform::Linux, "/tmp");
    assert_eq!(p.first_step(), ClipboardNext::Try(0));
    assert_eq!(p.after_attempt(0, false), ClipboardNext::Try(1));
    assert_eq!(p.after_attempt(0, true), ClipboardNext::Done);
    assert_eq!(p.after_attempt(1, false), ClipboardNext::Fail);
    assert_eq!(p.after_attempt(1, true), ClipboardNext::Done);
    let m = clipboard_plan(Platform::MacOs, "/tmp");
    assert_eq!(m.after_attempt(0, false), ClipboardNext::Fail);
    assert_eq!(clipboard_plan(Platform::Other, "/tmp").first_step(), ClipboardNext::Done);
}

#[test]
fn config_file_under_a_given_directory() {
    assert_eq!(config_file_path(Some("/home/u/.config".to_string()), Platform::Linux), "/home/u/.config/markpix/config.toml");
    assert_eq!(config_file_path(None, Platform::Linux), "./markpix/config.toml");
    assert_eq!(
        config_file_path(Some("C:\\Users\\u\\AppData\\Roaming".to_string()), Platform::Windows),
        "C:\\Users\\u\\AppData\\Roaming\\markpix\\config.toml"
    );
    assert_eq!(config_file_path(None, Platform::Windows), ".\\markpix\\config.toml");
}
