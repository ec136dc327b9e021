use snipman::cmdline::{parse_cmdline, pick_code_source, plan_editor, requires_install_gate, CodeSource, CommandKind, EditorPlan};
use snipman::install::{with_block, zsh_fpath_block};
use snipman::os::OsKind;
use snipman::paths::{config_root, data_root};
use snipman::shell::ShellTarget;
use snipman::text::{chars_of, join_chars, same_text, split_lines, string_of};

#[test]
fn parse_cmdline_plain_words() {
    assert_eq!(parse_cmdline("code -w"), vec!["code", "-w"]);
    assert_eq!(parse_cmdline("  vim   "), vec!["vim"]);
    assert!(parse_cmdline("").is_empty());
    assert!(parse_cmdline(" \t ").is_empty());
}

#[test]
fn parse_cmdline_escapes_and_quotes() {
    assert_eq!(parse_cmdline(r#"my\ editor --flag"#), vec!["my editor", "--flag"]);
    assert_eq!(parse_cmdline(r#"nvim "+set ft=rust""#), vec!["nvim", "+set ft=rust"]);
    assert_eq!(
        parse_cmdline(r#"sh -c "echo \"hi\" 'and bye'""#),
        vec!["sh", "-c", r#"echo "hi" 'and bye'"#]
    );
    assert_eq!(
        parse_cmdline(r#"--ext=\*.rs 'path with space'/file"#),
        vec!["--ext=*.rs", "path with space/file"]
    );
}

#[test]
fn parse_cmdline_unclosed_quote_and_trailing_backslash() {
    assert_eq!(parse_cmdline("emacs 'a b"), vec!["emacs", "a b"]);
    assert_eq!(parse_cmdline("vi \\"), vec!["vi"]);
    assert_eq!(parse_cmdline("'a\\b'"), vec!["a\\b"]);
}

#[test]
fn editor_plan_choices() {
    match plan_editor(Some("code --wait"), OsKind::Linux) {
        Some(EditorPlan::Argv(w)) => assert_eq!(w, vec!["code", "--wait"]),
        other => panic!("unexpected {:?}", other),
    }
    assert!(plan_editor(Some("   "), OsKind::Linux).is_none());
    match plan_editor(None, OsKind::Windows) {
        Some(EditorPlan::Argv(w)) => assert_eq!(w, vec!["notepad.exe"]),
        other => panic!("unexpected {:?}", other),
    }
    match plan_editor(None, OsKind::Macos) {
        Some(EditorPlan::Argv(w)) => assert_eq!(w, vec!["open", "-W", "-t"]),
        other => panic!("unexpected {:?}", other),
    }
    assert!(matches!(plan_editor(None, OsKind::Linux), Some(EditorPlan::NanoOrVi)));
    assert!(matches!(plan_editor(None, OsKind::Unknown("freebsd")), Some(EditorPlan::NanoOrVi)));
}

#[test]
fn code_source_precedence() {
    assert_eq!(pick_code_source(true, true, true, true), Some(CodeSource::Inline));
    assert_eq!(pick_code_source(false, true, true, false), Some(CodeSource::File));
    assert_eq!(pick_code_source(false, false, true, true), Some(CodeSource::Stdin));
    assert_eq!(pick_code_source(false, false, false, true), Some(CodeSource::Editor));
    assert_eq!(pick_code_source(false, false, false, false), None);
}

#[test]
fn install_gate_spares_only_install() {
    assert!(!requires_install_gate(CommandKind::Install));
    assert!(requires_install_gate(CommandKind::Add));
    assert!(requires_install_gate(CommandKind::List));
    assert!(requires_install_gate(CommandKind::Remove));
    assert!(requires_install_gate(CommandKind::Interactive));
}

#[test]
fn os_kind_names() {
    assert_eq!(OsKind::from_name("linux"), OsKind::Linux);
    assert_eq!(OsKind::from_name("macos"), OsKind::Macos);
    assert_eq!(OsKind::from_name("windows"), OsKind::Windows);
    assert_eq!(OsKind::from_name("freebsd"), OsKind::Unknown("freebsd"));
    assert_eq!(OsKind::from_name("freebsd").as_str(), "freebsd");
    assert_eq!(OsKind::Macos.as_str(), "macos");
    assert_eq!(OsKind::Windows.as_str(), "windows");
    assert!(OsKind::Linux.is_unix());
    assert!(OsKind::Macos.is_unix());
    assert!(!OsKind::Windows.is_unix());
    assert!(!OsKind::Unknown("x").is_unix());
}

#[test]
fn shell_targets() {
    assert_eq!(ShellTarget::from_shell_name("zsh"), Some(ShellTarget::Zsh));
    assert_eq!(ShellTarget::from_shell_name("bash"), Some(ShellTarget::Bash));
    assert_eq!(ShellTarget::from_shell_name("fish"), Some(ShellTarget::Fish));
    assert_eq!(ShellTarget::from_shell_name("tcsh"), None);
    let all = vec![ShellTarget::Bash, ShellTarget::Zsh, ShellTarget::Fish];
    assert_eq!(ShellTarget::All.concrete_shells(None), all);
    assert_eq!(ShellTarget::Auto.concrete_shells(None), all);
    assert_eq!(ShellTarget::Auto.concrete_shells(Some(ShellTarget::Fish)), vec![ShellTarget::Fish]);
    assert_eq!(ShellTarget::Zsh.concrete_shells(Some(ShellTarget::Bash)), vec![ShellTarget::Zsh]);
}

#[test]
fn block_is_added_once() {
    let first = with_block("export A=1", "M", "body").unwrap();
    assert_eq!(first, "export A=1\n\n# BEGIN M (snipman)\nbody\n# END M (snipman)\n");
    assert!(with_block(&first, "M", "other").is_none());
    let other = with_block(&first, "N", "b2").unwrap();
    assert!(other.starts_with(&first));
    assert_eq!(with_block("", "M", "x").unwrap(), "\n\n# BEGIN M (snipman)\nx\n# END M (snipman)\n");
    assert_eq!(with_block("a\n", "M", "x").unwrap(), "a\n\n# BEGIN M (snipman)\nx\n# END M (snipman)\n");
}

#[test]
fn zsh_block_text() {
    assert_eq!(
        zsh_fpath_block("/h/.zsh"),
        "fpath+=(/h/.zsh)\nautoload -Uz compinit\ncompinit -u"
    );
}

#[test]
fn text_helpers() {
    assert!(same_text("abc", "abc"));
    assert!(!same_text("abc", "abd"));
    assert!(!same_text("ab", "abc"));
    let chars = chars_of("a\r\nb\n\nc");
    let ls = split_lines(&chars);
    let ls: Vec<String> = ls.iter().map(|l| l.iter().collect()).collect();
    assert_eq!(ls, vec!["a", "b", "", "c"]);
    assert!(split_lines(&chars_of("")).is_empty());
    assert_eq!(split_lines(&chars_of("x\n")).len(), 1);
    let joined = join_chars(&vec![vec!['a'], vec![], vec!['b', 'c']], '-');
    assert_eq!(string_of(&joined), "a--bc");
}

fn s(t: &str) -> Option<String> {
    Some(t.to_string())
}

#[test]
fn data_root_per_platform() {
    assert_eq!(data_root(OsKind::Linux, None, None, s("/h"), s("/xdg")), vec!["/xdg"]);
    assert_eq!(data_root(OsKind::Linux, None, None, s("/h"), None), vec!["/h", ".local", "share"]);
    assert_eq!(data_root(OsKind::Unknown("bsd"), None, None, None, None), vec!["."]);
    assert_eq!(
        data_root(OsKind::Macos, s("x"), None, s("/Users/u"), s("/xdg")),
        vec!["/Users/u", "Library", "Application Support"]
    );
    assert_eq!(data_root(OsKind::Windows, s("C:\\A"), s("C:\\U"), None, None), vec!["C:\\A"]);
    assert_eq!(
        data_root(OsKind::Windows, None, s("C:\\U"), None, None),
        vec!["C:\\U", "AppData", "Roaming"]
    );
    assert_eq!(data_root(OsKind::Windows, None, None, s("/h"), None), vec!["."]);
}

#[test]
fn config_root_per_platform() {
    assert_eq!(config_root(OsKind::Linux, None, "/h".to_string(), None), vec!["/h", ".config", "snipman"]);
    assert_eq!(config_root(OsKind::Linux, None, "/h".to_string(), s("/c")), vec!["/c", "snipman"]);
    assert_eq!(
        config_root(OsKind::Macos, None, "/U".to_string(), s("/c")),
        vec!["/U", "Library", "Preferences", "snipman"]
    );
    assert_eq!(config_root(OsKind::Windows, s("A"), "/h".to_string(), None), vec!["A", "snipman"]);
    assert_eq!(config_root(OsKind::Windows, None, "/h".to_string(), None), vec![".", "snipman"]);
}
