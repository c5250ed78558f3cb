use vaise::defaults::default_cheat_sheets;
use vaise::files::{default_sheet_files, has_json_files, is_sheet_file, sheet_file_name};
use vaise::sheet::{CheatSheet, CheatSheetEntry, CheatSheetsPayload};
use vaise::sort::sort_sheets_by_name;

fn names(list: &[&str]) -> Vec<String> {
    list.iter().map(|s| s.to_string()).collect()
}

fn sheet(id: &str, name: &str) -> CheatSheet {
    CheatSheet {
        id: id.to_string(),
        name: name.to_string(),
        icon: None,
        tags: vec![],
        entries: vec![],
    }
}

fn sheet_files(list: &[String]) -> Vec<String> {
    list.iter().filter(|n| is_sheet_file(n)).cloned().collect()
}

fn ids(sheets: &[CheatSheet]) -> Vec<&str> {
    sheets.iter().map(|s| s.id.as_str()).collect()
}

#[test]
fn defaults_hold_four_sheets_in_order() {
    let sheets = default_cheat_sheets();
    assert_eq!(ids(&sheets), vec!["vscode", "figma", "terminal", "tmux"]);
    let names: Vec<&str> = sheets.iter().map(|s| s.name.as_str()).collect();
    assert_eq!(names, vec!["VS Code", "Figma", "Terminal", "tmux"]);
    let icons: Vec<Option<&str>> = sheets.iter().map(|s| s.icon.as_deref()).collect();
    assert_eq!(icons, vec![Some("code"), Some("fig"), Some("prompt"), Some("mux")]);
    let counts: Vec<usize> = sheets.iter().map(|s| s.entries.len()).collect();
    assert_eq!(counts, vec![3, 3, 3, 29]);
}

#[test]
fn default_entries_carry_their_commands() {
    let sheets = default_cheat_sheets();
    let palette: &CheatSheetEntry = &sheets[0].entries[0];
    assert_eq!(palette.id, "command-palette");
    assert_eq!(palette.name, "Command Palette");
    assert_eq!(palette.action, "Open the command palette");
    assert_eq!(palette.command, Some(names(&["Cmd", "Shift", "P"])));
    assert_eq!(palette.command_text, None);
    assert_eq!(palette.command_sequence, None);
    assert_eq!(palette.aliases, names(&["palette", "commands"]));
    assert_eq!(palette.tags, names(&["search"]));

    let painter = &sheets[1].entries[2];
    assert_eq!(painter.id, "format-painter");
    assert_eq!(painter.command, None);
    assert_eq!(
        painter.command_sequence,
        Some(vec![names(&["Option", "Cmd", "C"]), names(&["Option", "Cmd", "V"])])
    );

    let split = sheets[3].entries.iter().find(|e| e.id == "split-horizontal").unwrap();
    assert_eq!(split.command_text.as_deref(), Some("split-window -v"));
    assert_eq!(split.command_sequence, Some(vec![names(&["Ctrl", "B"]), names(&["\""])]));

    let last = sheets[3].entries.last().unwrap();
    assert_eq!(last.id, "list-keys");
    assert_eq!(last.aliases, names(&["help", "bindings", "shortcuts"]));
}

#[test]
fn default_ids_are_distinct() {
    let sheets = default_cheat_sheets();
    for (i, a) in sheets.iter().enumerate() {
        for b in &sheets[i + 1..] {
            assert_ne!(a.id, b.id);
        }
        for (j, x) in a.entries.iter().enumerate() {
            for y in &a.entries[j + 1..] {
                assert_ne!(x.id, y.id);
            }
        }
    }
}

#[test]
fn sheet_files_are_json_files() {
    assert!(is_sheet_file("vscode.json"));
    assert!(is_sheet_file("archive.tar.json"));
    assert!(is_sheet_file("..json"));
    assert!(!is_sheet_file("notes.txt"));
    assert!(!is_sheet_file(".json"));
    assert!(!is_sheet_file("json"));
    assert!(!is_sheet_file("a.json."));
    assert!(!is_sheet_file("a.JSON"));
    assert!(!is_sheet_file("a.jsonl"));
    assert!(!is_sheet_file(".."));
    assert!(!is_sheet_file(""));
    assert!(is_sheet_file("été.json"));
}

#[test]
fn finds_json_files_among_names() {
    assert!(!has_json_files(&names(&[])));
    assert!(!has_json_files(&names(&["a.txt", ".json", "README"])));
    assert!(has_json_files(&names(&["a.txt", "b.json"])));
    assert_eq!(
        sheet_files(&names(&["z.json", "a.txt", "b.json", ".json", "c.json"])),
        names(&["z.json", "b.json", "c.json"])
    );
}

#[test]
fn sheet_file_name_appends_json() {
    assert_eq!(sheet_file_name("vscode"), "vscode.json");
    assert_eq!(sheet_file_name(""), ".json");
}

#[test]
fn seeding_writes_defaults_only_without_json_files() {
    let files = default_sheet_files(&names(&["notes.txt"]));
    let written: Vec<&str> = files.iter().map(|(name, _)| name.as_str()).collect();
    assert_eq!(written, vec!["vscode.json", "figma.json", "terminal.json", "tmux.json"]);
    assert_eq!(files[3].1.id, "tmux");
    assert_eq!(files[3].1.entries.len(), 29);

    let again = default_sheet_files(&names(&["notes.txt", "vscode.json"]));
    assert!(again.is_empty());
}

#[test]
fn seeding_twice_writes_nothing_the_second_time() {
    let mut dir = names(&["notes.txt"]);
    for (name, _) in default_sheet_files(&dir) {
        dir.push(name);
    }
    assert!(default_sheet_files(&dir).is_empty());
    assert_eq!(
        sheet_files(&dir),
        names(&["vscode.json", "figma.json", "terminal.json", "tmux.json"])
    );
}

#[test]
fn sorts_defaults_by_name() {
    let sorted = sort_sheets_by_name(default_cheat_sheets());
    assert_eq!(ids(&sorted), vec!["figma", "terminal", "vscode", "tmux"]);
}

#[test]
fn sort_is_stable_and_byte_ordered() {
    let input = vec![
        sheet("b1", "beta"),
        sheet("a1", "Alpha"),
        sheet("b2", "beta"),
        sheet("z", "Zed"),
        sheet("e", "éclair"),
        sheet("a2", "alpha"),
        sheet("b3", "beta"),
        sheet("empty", ""),
        sheet("al", "al"),
    ];
    let sorted = sort_sheets_by_name(input);
    assert_eq!(ids(&sorted), vec!["empty", "a1", "z", "al", "a2", "b1", "b2", "b3", "e"]);
    let mut by_std: Vec<&str> = sorted.iter().map(|s| s.name.as_str()).collect();
    by_std.sort();
    let names_sorted: Vec<&str> = sorted.iter().map(|s| s.name.as_str()).collect();
    assert_eq!(names_sorted, by_std);
}

#[test]
fn sorting_twice_changes_nothing() {
    let once = sort_sheets_by_name(vec![sheet("c", "c"), sheet("a", "a"), sheet("b", "b"), sheet("a2", "a")]);
    let first: Vec<String> = once.iter().map(|s| s.id.clone()).collect();
    let twice = sort_sheets_by_name(once);
    let second: Vec<String> = twice.iter().map(|s| s.id.clone()).collect();
    assert_eq!(first, second);
    assert_eq!(first, vec!["a", "a2", "b", "c"]);
}

#[test]
fn sort_of_nothing_is_nothing() {
    assert!(sort_sheets_by_name(vec![]).is_empty());
}

#[test]
fn payload_holds_directory_and_sheets() {
    let payload = CheatSheetsPayload::new("/tmp/cheatsheets".to_string(), vec![sheet("x", "X")]);
    assert_eq!(payload.directory, "/tmp/cheatsheets");
    assert_eq!(ids(&payload.sheets), vec!["x"]);
}

#[test]
fn other_names_do_not_change_the_sheet_files() {
    let base = names(&["b.json", "a.json"]);
    let mixed = names(&["notes.txt", "b.json", "b.JSON", ".json", "a.json", "c.json.bak", "README"]);
    assert_eq!(sheet_files(&mixed), sheet_files(&base));
    assert_eq!(default_sheet_files(&names(&["notes.txt", "b.JSON", ".json"])).len(), 4);
}
