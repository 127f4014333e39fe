use pidisk::command::{
    create_directory_command, discard_command, disk_usage_command, empty_trash_command,
    ensure_trash_command, move_command, navigate_command, purge_command, rename_command,
};

#[test]
fn navigate_command_text() {
    let c = navigate_command("/r");
    assert_eq!(c.text, "cd '/r' && pwd && ls -1");
    assert!(c.read_output);
    assert!(c.wait_close);
}

#[test]
fn create_directory_command_text() {
    let c = create_directory_command("/r", "new dir");
    assert_eq!(c.text, "cd '/r' && mkdir './new dir'");
    assert!(!c.read_output);
    assert!(c.wait_close);
}

#[test]
fn create_directory_takes_the_name_as_an_entry() {
    let c = create_directory_command("/r", "/etc/x");
    assert_eq!(c.text, "cd '/r' && mkdir './/etc/x'");
}

#[test]
fn names_that_look_like_options_are_entries_too() {
    let c = create_directory_command("/r", "-p");
    assert_eq!(c.text, "cd '/r' && mkdir './-p'");
}

#[test]
fn move_command_text() {
    let c = move_command("/r/a", "/r/b");
    assert_eq!(c.text, "sh -lc 'mv '\\''/r/a'\\'' '\\''/r/b'\\'''");
    assert!(!c.read_output);
    assert!(c.wait_close);
}

#[test]
fn ensure_trash_command_text() {
    let c = ensure_trash_command("/r/Bin");
    assert_eq!(c.text, "mkdir -p '/r/Bin'");
    assert!(!c.read_output);
    assert!(c.wait_close);
}

#[test]
fn purge_command_text() {
    let c = purge_command("/r/Bin", "old");
    assert_eq!(c.text, "sh -lc 'cd '\\''/r/Bin'\\'' && rm -rf '\\''./old'\\'''");
    assert!(!c.read_output);
    assert!(c.wait_close);
}

#[test]
fn purge_takes_the_name_as_an_entry() {
    let c = purge_command("/r/Bin", "/home");
    assert_eq!(c.text, "sh -lc 'cd '\\''/r/Bin'\\'' && rm -rf '\\''.//home'\\'''");
}

#[test]
fn discard_command_text() {
    let c = discard_command("/r/docs", "old", "/r/Bin");
    assert_eq!(
        c.text,
        "sh -lc 'cd '\\''/r/docs'\\'' && mv '\\''/r/docs/old'\\'' '\\''/r/Bin'\\'''"
    );
    assert!(!c.read_output);
    assert!(c.wait_close);
}

#[test]
fn empty_trash_command_text() {
    let c = empty_trash_command("/r/Bin");
    assert_eq!(c.text, "cd '/r/Bin' && rm -rf ./* ./.[!.]* ./..?*");
    assert!(!c.read_output);
    assert!(c.wait_close);
}

#[test]
fn disk_usage_command_text() {
    let c = disk_usage_command("/r");
    assert_eq!(c.text, "cd '/r' && df -h .");
    assert!(c.read_output);
    assert!(c.wait_close);
}

#[test]
fn rename_command_text() {
    let c = rename_command("/r", "a", "b");
    assert_eq!(c.text, "sh -lc 'cd '\\''/r'\\'' && mv '\\''./a'\\'' '\\''./b'\\'''");
    assert!(!c.read_output);
    assert!(c.wait_close);
}

#[test]
fn rename_takes_both_names_as_relative() {
    let c = rename_command("/r", "/a", "/b");
    assert_eq!(c.text, "sh -lc 'cd '\\''/r'\\'' && mv '\\''.//a'\\'' '\\''.//b'\\'''");
}

#[test]
fn quote_in_a_name_stays_inside_its_word() {
    let c = create_directory_command("/r", "x' && rm -rf / '");
    assert_eq!(c.text, "cd '/r' && mkdir './x'\\'' && rm -rf / '\\'''");
}

/// Whether a pattern made of plain characters, `?`, `*` and `[!c]` takes up
/// all of a name.
fn fits(pattern: &[char], name: &[char]) -> bool {
    match pattern.first() {
        None => name.is_empty(),
        Some('*') => fits(&pattern[1..], name) || (!name.is_empty() && fits(pattern, &name[1..])),
        Some('?') => !name.is_empty() && fits(&pattern[1..], &name[1..]),
        Some('[') => {
            !name.is_empty() && name[0] != pattern[2] && fits(&pattern[4..], &name[1..])
        }
        Some(c) => !name.is_empty() && name[0] == *c && fits(&pattern[1..], &name[1..]),
    }
}

/// Whether a shell that expands the pattern names the entry.
fn names(pattern: &str, name: &str) -> bool {
    let pattern: Vec<char> = pattern.chars().collect();
    let name: Vec<char> = name.chars().collect();
    fits(&pattern, &name) && (name.first() != Some(&'.') || pattern.first() == Some(&'.'))
}

#[test]
fn empty_trash_names_every_entry() {
    let text = empty_trash_command("/r/Bin").text;
    let patterns: Vec<&str> = text
        .split(' ')
        .filter_map(|word| word.strip_prefix("./"))
        .collect();
    assert_eq!(patterns, vec!["*", ".[!.]*", "..?*"]);
    let entries = ["a", "a.txt", ".hidden", ".a", "..b", "...", "..hidden.txt", "-rf", "*", "?"];
    for entry in entries {
        let count = patterns.iter().filter(|p| names(p, entry)).count();
        assert_eq!(count, 1, "{:?}", entry);
    }
    for entry in [".", ".."] {
        assert!(patterns.iter().all(|p| !names(p, entry)), "{:?}", entry);
    }
}
