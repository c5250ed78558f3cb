//! The cheat sheets the launcher starts with.
use vstd::prelude::*;
use crate::sheet::{CheatSheet, CheatSheetEntry, EntryModel, SheetModel};
use crate::sort::{
    index_hit,
    is_stable_sort_by_name,
    lemma_sort_ignores_input_order,
    names_distinct,
    rearranges,
    sorted_by_name,
    stable_arrangement,
};
use crate::text::{text_less, lemma_text_less_asymmetric, lemma_text_less_transitive};

verus! {

/// The texts `ts` as character sequences.
pub open spec fn texts_model(ts: Seq<&str>) -> Seq<Seq<char>> {
    Seq::new(ts.len(), |i: int| ts[i]@)
}

/// Groups of texts as sequences of character sequences.
pub open spec fn groups_model(gs: Seq<Seq<&str>>) -> Seq<Seq<Seq<char>>> {
    Seq::new(gs.len(), |i: int| texts_model(gs[i]))
}

/// The model of an entry given by its texts.
pub open spec fn entry_model(
    id: &str,
    name: &str,
    action: &str,
    command: Option<Seq<&str>>,
    command_text: Option<&str>,
    command_sequence: Option<Seq<Seq<&str>>>,
    aliases: Seq<&str>,
    tags: Seq<&str>,
) -> EntryModel {
    EntryModel {
        id: id@,
        name: name@,
        action: action@,
        command: match command {
            Some(c) => Some(texts_model(c)),
            None => None,
        },
        command_text: match command_text {
            Some(t) => Some(t@),
            None => None,
        },
        command_sequence: match command_sequence {
            Some(g) => Some(groups_model(g)),
            None => None,
        },
        aliases: texts_model(aliases),
        tags: texts_model(tags),
    }
}

/// The model of a sheet given by its texts and entries.
pub open spec fn sheet_model(
    id: &str,
    name: &str,
    icon: &str,
    tags: Seq<&str>,
    entries: Seq<EntryModel>,
) -> SheetModel {
    SheetModel { id: id@, name: name@, icon: Some(icon@), tags: texts_model(tags), entries }
}

/// The model of texts holds each given text, in order.
pub proof fn lemma_texts_model_holds_texts(ts: Seq<&str>)
    ensures
        texts_model(ts).len() == ts.len(),
        forall|k: int| 0 <= k < ts.len() ==> #[trigger] texts_model(ts)[k] == ts[k]@,
{
}

/// A sheet model carries exactly the texts and entries it is given.
pub proof fn lemma_sheet_model_carries_its_texts(
    id: &str,
    name: &str,
    icon: &str,
    tags: Seq<&str>,
    entries: Seq<EntryModel>,
)
    ensures
        ({
            let m = sheet_model(id, name, icon, tags, entries);
            &&& m.id == id@
            &&& m.name == name@
            &&& m.icon == Some(icon@)
            &&& m.tags.len() == tags.len()
            &&& forall|k: int| 0 <= k < tags.len() ==> #[trigger] m.tags[k] == tags[k]@
            &&& m.entries == entries
        }),
{
}

/// An entry model carries exactly the texts it is given.
pub proof fn lemma_entry_model_carries_its_texts(
    id: &str,
    name: &str,
    action: &str,
    command: Option<Seq<&str>>,
    command_text: Option<&str>,
    command_sequence: Option<Seq<Seq<&str>>>,
    aliases: Seq<&str>,
    tags: Seq<&str>,
)
    ensures
        ({
            let m = entry_model(id, name, action, command, command_text, command_sequence, aliases, tags);
            &&& m.id == id@
            &&& m.name == name@
            &&& m.action == action@
            &&& (m.command is Some <==> command is Some)
            &&& (command matches Some(c) ==> m.command->0.len() == c.len() && forall|k: int|
                0 <= k < c.len() ==> #[trigger] m.command->0[k] == c[k]@)
            &&& (m.command_text is Some <==> command_text is Some)
            &&& (command_text matches Some(t) ==> m.command_text->0 == t@)
            &&& (m.command_sequence is Some <==> command_sequence is Some)
            &&& (command_sequence matches Some(g) ==> m.command_sequence->0.len() == g.len() && forall|k: int, j: int|
                0 <= k < g.len() && 0 <= j < g[k].len() ==> #[trigger] m.command_sequence->0[k][j] == g[k][j]@
                    && m.command_sequence->0[k].len() == g[k].len())
            &&& m.aliases.len() == aliases.len()
            &&& forall|k: int| 0 <= k < aliases.len() ==> #[trigger] m.aliases[k] == aliases[k]@
            &&& m.tags.len() == tags.len()
            &&& forall|k: int| 0 <= k < tags.len() ==> #[trigger] m.tags[k] == tags[k]@
        }),
{
}

/// Owned copies of the texts `ts`.
fn texts(ts: &[&str]) -> (r: Vec<String>)
    ensures
        r.deep_view() == texts_model(ts@),
        r@.len() == ts@.len(),
        forall|k: int| 0 <= k < ts@.len() ==> (#[trigger] r@[k])@ == ts@[k]@,
{
    let mut r: Vec<String> = Vec::new();
    let mut i: usize = 0;
    while i < ts.len()
        invariant
            i <= ts@.len(),
            r@.len() == i,
            r.deep_view() == texts_model(ts@.subrange(0, i as int)),
        decreases ts.len() - i,
    {
        let ghost before = r@;
        let t = String::from_str(ts[i]);
        r.push(t);
        proof {
            assert forall|k: int| 0 <= k < i implies r@[k].deep_view() == ts@[k]@ by {
                assert(r@[k] == before[k]);
                assert(texts_model(ts@.subrange(0, i as int))[k] == ts@[k]@);
            }
            assert(r.deep_view() =~= texts_model(ts@.subrange(0, i + 1)));
        }
        i = i + 1;
    }
    assert(ts@.subrange(0, i as int) =~= ts@);
    assert forall|k: int| 0 <= k < ts@.len() implies (#[trigger] r@[k])@ == ts@[k]@ by {
        assert(r.deep_view()[k] == r@[k].deep_view());
    }
    r
}

/// Owned copies of the groups of texts `gs`.
fn groups(gs: &[&[&str]]) -> (r: Vec<Vec<String>>)
    ensures
        r.deep_view() == groups_model(gs@.map_values(|g: &[&str]| g@)),
{
    let ghost model = gs@.map_values(|g: &[&str]| g@);
    let mut r: Vec<Vec<String>> = Vec::new();
    let mut i: usize = 0;
    while i < gs.len()
        invariant
            i <= gs@.len(),
            model == gs@.map_values(|g: &[&str]| g@),
            r@.len() == i,
            r.deep_view() == groups_model(model.subrange(0, i as int)),
        decreases gs.len() - i,
    {
        let ghost before = r@;
        let t = texts(gs[i]);
        r.push(t);
        proof {
            assert forall|k: int| 0 <= k < i implies r@[k].deep_view() == texts_model(model[k]) by {
                assert(r@[k] == before[k]);
                assert(groups_model(model.subrange(0, i as int))[k] == texts_model(model[k]));
            }
            assert(r.deep_view() =~= groups_model(model.subrange(0, i + 1)));
        }
        i = i + 1;
    }
    assert(model.subrange(0, i as int) =~= model);
    r
}

/// An entry made of the given texts.
fn entry(
    id: &str,
    name: &str,
    action: &str,
    command: Option<&[&str]>,
    command_text: Option<&str>,
    command_sequence: Option<&[&[&str]]>,
    aliases: &[&str],
    tags: &[&str],
) -> (r: CheatSheetEntry)
    ensures
        r@ == entry_model(
            id,
            name,
            action,
            match command {
                Some(c) => Some(c@),
                None => None,
            },
            command_text,
            match command_sequence {
                Some(g) => Some(g@.map_values(|x: &[&str]| x@)),
                None => None,
            },
            aliases@,
            tags@,
        ),
{
    let command = match command {
        Some(c) => Some(texts(c)),
        None => None,
    };
    let command_text = match command_text {
        Some(t) => Some(String::from_str(t)),
        None => None,
    };
    let command_sequence = match command_sequence {
        Some(g) => Some(groups(g)),
        None => None,
    };
    CheatSheetEntry {
        id: String::from_str(id),
        name: String::from_str(name),
        action: String::from_str(action),
        command,
        command_text,
        command_sequence,
        aliases: texts(aliases),
        tags: texts(tags),
    }
}

/// A sheet made of the given texts and entries.
fn sheet(id: &str, name: &str, icon: &str, tags: &[&str], entries: Vec<CheatSheetEntry>) -> (r:
    CheatSheet)
    ensures
        r@ == sheet_model(id, name, icon, tags@, entries.deep_view()),
        r.id@ == id@,
        r.name@ == name@,
        r.icon.deep_view() == Some(icon@),
        r.tags@.len() == tags@.len(),
        forall|k: int| 0 <= k < tags@.len() ==> (#[trigger] r.tags@[k])@ == tags@[k]@,
        r.entries@ == entries@,
{
    CheatSheet {
        id: String::from_str(id),
        name: String::from_str(name),
        icon: Some(String::from_str(icon)),
        tags: texts(tags),
        entries,
    }
}

/// The model of the built-in VS Code sheet.
pub open spec fn vscode_model() -> SheetModel {
    sheet_model(
        "vscode",
        "VS Code",
        "code",
        seq!["editor", "typescript"],
        seq![
            entry_model(
                "command-palette",
                "Command Palette",
                "Open the command palette",
                Some(seq!["Cmd", "Shift", "P"]),
                None,
                None,
                seq!["palette", "commands"],
                seq!["search"],
            ),
            entry_model(
                "quick-open",
                "Quick Open",
                "Search files in the workspace",
                Some(seq!["Cmd", "P"]),
                None,
                None,
                seq!["go to file", "open file"],
                seq!["files"],
            ),
            entry_model(
                "terminal",
                "Integrated Terminal",
                "Toggle the integrated terminal",
                Some(seq!["Ctrl", "`"]),
                None,
                None,
                seq!["shell", "console"],
                seq!["terminal"],
            ),
        ],
    )
}

/// The built-in VS Code sheet.
fn vscode_sheet() -> (r: CheatSheet)
    ensures
        r@ == vscode_model(),
{
    let entries = vec![
        entry(
            "command-palette",
            "Command Palette",
            "Open the command palette",
            Some(&["Cmd", "Shift", "P"]),
            None,
            None,
            &["palette", "commands"],
            &["search"],
        ),
        entry(
            "quick-open",
            "Quick Open",
            "Search files in the workspace",
            Some(&["Cmd", "P"]),
            None,
            None,
            &["go to file", "open file"],
            &["files"],
        ),
        entry(
            "terminal",
            "Integrated Terminal",
            "Toggle the integrated terminal",
            Some(&["Ctrl", "`"]),
            None,
            None,
            &["shell", "console"],
            &["terminal"],
        ),
    ];
    assert(entries.deep_view() =~~= vscode_model().entries);
    sheet("vscode", "VS Code", "code", &["editor", "typescript"], entries)
}

/// The model of the built-in Figma sheet.
pub open spec fn figma_model() -> SheetModel {
    sheet_model(
        "figma",
        "Figma",
        "fig",
        seq!["design", "ui"],
        seq![
            entry_model(
                "frame-tool",
                "Frame Tool",
                "Create a new frame",
                Some(seq!["F"]),
                None,
                None,
                seq!["artboard"],
                seq!["layout"],
            ),
            entry_model(
                "scale-tool",
                "Scale Tool",
                "Scale a selection proportionally",
                Some(seq!["K"]),
                None,
                None,
                seq!["resize"],
                seq!["selection"],
            ),
            entry_model(
                "format-painter",
                "Copy and Paste Properties",
                "Copy properties, then paste them elsewhere",
                None,
                None,
                Some(seq![seq!["Option", "Cmd", "C"], seq!["Option", "Cmd", "V"]]),
                seq!["styles", "properties"],
                seq!["style"],
            ),
        ],
    )
}

/// The built-in Figma sheet.
fn figma_sheet() -> (r: CheatSheet)
    ensures
        r@ == figma_model(),
{
    let entries = vec![
        entry(
            "frame-tool",
            "Frame Tool",
            "Create a new frame",
            Some(&["F"]),
            None,
            None,
            &["artboard"],
            &["layout"],
        ),
        entry(
            "scale-tool",
            "Scale Tool",
            "Scale a selection proportionally",
            Some(&["K"]),
            None,
            None,
            &["resize"],
            &["selection"],
        ),
        entry(
            "format-painter",
            "Copy and Paste Properties",
            "Copy properties, then paste them elsewhere",
            None,
            None,
            Some(&[&["Option", "Cmd", "C"], &["Option", "Cmd", "V"]]),
            &["styles", "properties"],
            &["style"],
        ),
    ];
    assert(entries.deep_view() =~~= figma_model().entries);
    sheet("figma", "Figma", "fig", &["design", "ui"], entries)
}

/// The model of the built-in Terminal sheet.
pub open spec fn terminal_model() -> SheetModel {
    sheet_model(
        "terminal",
        "Terminal",
        "prompt",
        seq!["shell", "cli"],
        seq![
            entry_model(
                "clear-line",
                "Clear Line",
                "Delete from cursor to start of line",
                Some(seq!["Ctrl", "U"]),
                None,
                None,
                seq!["kill line"],
                seq!["editing"],
            ),
            entry_model(
                "last-command",
                "Last Command Arguments",
                "Insert the last command argument",
                Some(seq!["Esc", "."]),
                None,
                None,
                seq!["argument"],
                seq!["history"],
            ),
            entry_model(
                "reverse-search",
                "Reverse Search",
                "Search shell history backwards",
                Some(seq!["Ctrl", "R"]),
                None,
                None,
                seq!["history search"],
                seq!["history"],
            ),
        ],
    )
}

/// The built-in Terminal sheet.
fn terminal_sheet() -> (r: CheatSheet)
    ensures
        r@ == terminal_model(),
{
    let entries = vec![
        entry(
            "clear-line",
            "Clear Line",
            "Delete from cursor to start of line",
            Some(&["Ctrl", "U"]),
            None,
            None,
            &["kill line"],
            &["editing"],
        ),
        entry(
            "last-command",
            "Last Command Arguments",
            "Insert the last command argument",
            Some(&["Esc", "."]),
            None,
            None,
            &["argument"],
            &["history"],
        ),
        entry(
            "reverse-search",
            "Reverse Search",
            "Search shell history backwards",
            Some(&["Ctrl", "R"]),
            None,
            None,
            &["history search"],
            &["history"],
        ),
    ];
    assert(entries.deep_view() =~~= terminal_model().entries);
    sheet("terminal", "Terminal", "prompt", &["shell", "cli"], entries)
}

/// The model of the built-in tmux sheet.
pub open spec fn tmux_model() -> SheetModel {
    sheet_model(
        "tmux",
        "tmux",
        "mux",
        seq!["terminal", "multiplexer"],
        seq![
            entry_model(
                "new-session",
                "New Session",
                "Start a new tmux session",
                None,
                Some("tmux new-session"),
                Some(seq![seq!["tmux"], seq!["new-session"]]),
                seq!["tmux new", "session start"],
                seq!["sessions", "cli"],
            ),
            entry_model(
                "list-sessions",
                "List Sessions",
                "Show all tmux sessions",
                None,
                Some("tmux list-sessions"),
                Some(seq![seq!["tmux"], seq!["list-sessions"]]),
                seq!["tmux ls", "sessions list"],
                seq!["sessions", "cli"],
            ),
            entry_model(
                "attach-session",
                "Attach Session",
                "Attach to the last or named tmux session",
                None,
                Some("tmux attach-session -t <name>"),
                Some(seq![seq!["tmux"], seq!["attach-session", "-t", "<name>"]]),
                seq!["attach", "tmux attach", "reattach"],
                seq!["sessions", "cli"],
            ),
            entry_model(
                "new-window",
                "New Window",
                "Create a new tmux window",
                None,
                Some("new-window"),
                Some(seq![seq!["Ctrl", "B"], seq!["C"]]),
                seq!["window", "create window"],
                seq!["windows"],
            ),
            entry_model(
                "split-horizontal",
                "Split Horizontal",
                "Split the current pane horizontally",
                None,
                Some("split-window -v"),
                Some(seq![seq!["Ctrl", "B"], seq!["\""]]),
                seq!["pane split", "horizontal split"],
                seq!["panes"],
            ),
            entry_model(
                "split-vertical",
                "Split Vertical",
                "Split the current pane vertically",
                None,
                Some("split-window -h"),
                Some(seq![seq!["Ctrl", "B"], seq!["%"]]),
                seq!["vertical split", "pane vertical"],
                seq!["panes"],
            ),
            entry_model(
                "next-window",
                "Next Window",
                "Move to the next tmux window",
                None,
                Some("next-window"),
                Some(seq![seq!["Ctrl", "B"], seq!["n"]]),
                seq!["cycle window", "forward window"],
                seq!["windows"],
            ),
            entry_model(
                "previous-window",
                "Previous Window",
                "Move to the previous tmux window",
                None,
                Some("previous-window"),
                Some(seq![seq!["Ctrl", "B"], seq!["p"]]),
                seq!["back window", "prev window"],
                seq!["windows"],
            ),
            entry_model(
                "list-windows",
                "List Windows",
                "Open the tmux window list",
                None,
                Some("list-windows"),
                Some(seq![seq!["Ctrl", "B"], seq!["w"]]),
                seq!["window list", "choose window"],
                seq!["windows"],
            ),
            entry_model(
                "last-window",
                "Last Window",
                "Toggle the last active window",
                None,
                Some("last-window"),
                Some(seq![seq!["Ctrl", "B"], seq!["l"]]),
                seq!["previous active window", "toggle window"],
                seq!["windows"],
            ),
            entry_model(
                "rename-window",
                "Rename Window",
                "Rename the current tmux window",
                None,
                Some("rename-window"),
                Some(seq![seq!["Ctrl", "B"], seq![","]]),
                seq!["window name", "rename pane group"],
                seq!["windows"],
            ),
            entry_model(
                "detach-session",
                "Detach Session",
                "Detach from the current tmux session",
                None,
                Some("detach-client"),
                Some(seq![seq!["Ctrl", "B"], seq!["D"]]),
                seq!["detach", "leave session"],
                seq!["sessions"],
            ),
            entry_model(
                "choose-sessions",
                "Choose Session",
                "Open the tmux session switcher",
                None,
                Some("choose-tree -s"),
                Some(seq![seq!["Ctrl", "B"], seq!["s"]]),
                seq!["session list", "switch session"],
                seq!["sessions"],
            ),
            entry_model(
                "previous-session",
                "Previous Session",
                "Move to the previous tmux session",
                None,
                Some("switch-client -p"),
                Some(seq![seq!["Ctrl", "B"], seq!["("]]),
                seq!["prev session", "back session"],
                seq!["sessions"],
            ),
            entry_model(
                "next-session",
                "Next Session",
                "Move to the next tmux session",
                None,
                Some("switch-client -n"),
                Some(seq![seq!["Ctrl", "B"], seq![")"]]),
                seq!["forward session", "cycle session"],
                seq!["sessions"],
            ),
            entry_model(
                "copy-mode",
                "Copy Mode",
                "Enter tmux copy mode",
                None,
                Some("copy-mode"),
                Some(seq![seq!["Ctrl", "B"], seq!["["]]),
                seq!["scrollback", "copy"],
                seq!["copy mode"],
            ),
            entry_model(
                "last-pane",
                "Last Pane",
                "Jump to the previously active pane",
                None,
                Some("last-pane"),
                Some(seq![seq!["Ctrl", "B"], seq![";"]]),
                seq!["previous pane", "toggle pane"],
                seq!["panes"],
            ),
            entry_model(
                "move-pane-left",
                "Move Pane Left",
                "Focus the pane on the left",
                None,
                Some("select-pane -L"),
                Some(seq![seq!["Ctrl", "B"], seq!["Left"]]),
                seq!["pane left", "focus left"],
                seq!["panes", "navigation"],
            ),
            entry_model(
                "move-pane-right",
                "Move Pane Right",
                "Focus the pane on the right",
                None,
                Some("select-pane -R"),
                Some(seq![seq!["Ctrl", "B"], seq!["Right"]]),
                seq!["pane right", "focus right"],
                seq!["panes", "navigation"],
            ),
            entry_model(
                "next-pane",
                "Next Pane",
                "Switch to the next tmux pane",
                None,
                Some("select-pane -t :.+"),
                Some(seq![seq!["Ctrl", "B"], seq!["o"]]),
                seq!["cycle pane", "pane next"],
                seq!["panes"],
            ),
            entry_model(
                "show-pane-numbers",
                "Show Pane Numbers",
                "Temporarily show pane numbers",
                None,
                Some("display-panes"),
                Some(seq![seq!["Ctrl", "B"], seq!["q"]]),
                seq!["pane ids", "pane numbers"],
                seq!["panes"],
            ),
            entry_model(
                "toggle-pane-zoom",
                "Toggle Pane Zoom",
                "Zoom or unzoom the current pane",
                None,
                Some("resize-pane -Z"),
                Some(seq![seq!["Ctrl", "B"], seq!["z"]]),
                seq!["maximize pane", "zoom pane"],
                seq!["panes"],
            ),
            entry_model(
                "kill-pane",
                "Kill Pane",
                "Close the current pane",
                None,
                Some("kill-pane"),
                Some(seq![seq!["Ctrl", "B"], seq!["x"]]),
                seq!["close pane", "delete pane"],
                seq!["panes"],
            ),
            entry_model(
                "resize-pane-left",
                "Resize Pane Left",
                "Resize the current pane to the left",
                None,
                Some("resize-pane -L"),
                Some(seq![seq!["Ctrl", "B"], seq!["Ctrl", "Left"]]),
                seq!["shrink pane", "resize left"],
                seq!["panes", "resize"],
            ),
            entry_model(
                "resize-pane-right",
                "Resize Pane Right",
                "Resize the current pane to the right",
                None,
                Some("resize-pane -R"),
                Some(seq![seq!["Ctrl", "B"], seq!["Ctrl", "Right"]]),
                seq!["grow pane", "resize right"],
                seq!["panes", "resize"],
            ),
            entry_model(
                "pane-layout",
                "Toggle Pane Layout",
                "Cycle through pane layouts",
                None,
                Some("select-layout"),
                Some(seq![seq!["Ctrl", "B"], seq!["Space"]]),
                seq!["layout", "pane layout"],
                seq!["panes", "layout"],
            ),
            entry_model(
                "paste-buffer",
                "Paste Buffer",
                "Paste the current tmux buffer",
                None,
                Some("paste-buffer"),
                Some(seq![seq!["Ctrl", "B"], seq!["]"]]),
                seq!["paste", "buffer paste"],
                seq!["copy mode", "buffers"],
            ),
            entry_model(
                "command-prompt",
                "Command Prompt",
                "Open the tmux command prompt",
                None,
                Some("command-prompt"),
                Some(seq![seq!["Ctrl", "B"], seq![":"]]),
                seq!["tmux command", "prompt"],
                seq!["misc"],
            ),
            entry_model(
                "list-keys",
                "List Keys",
                "Show all tmux key bindings",
                None,
                Some("list-keys"),
                Some(seq![seq!["Ctrl", "B"], seq!["?"]]),
                seq!["help", "bindings", "shortcuts"],
                seq!["help"],
            ),
        ],
    )
}

/// The built-in tmux sheet.
fn tmux_sheet() -> (r: CheatSheet)
    ensures
        r@ == tmux_model(),
{
    let entries = vec![
        entry(
            "new-session",
            "New Session",
            "Start a new tmux session",
            None,
            Some("tmux new-session"),
            Some(&[&["tmux"], &["new-session"]]),
            &["tmux new", "session start"],
            &["sessions", "cli"],
        ),
        entry(
            "list-sessions",
            "List Sessions",
            "Show all tmux sessions",
            None,
            Some("tmux list-sessions"),
            Some(&[&["tmux"], &["list-sessions"]]),
            &["tmux ls", "sessions list"],
            &["sessions", "cli"],
        ),
        entry(
            "attach-session",
            "Attach Session",
            "Attach to the last or named tmux session",
            None,
            Some("tmux attach-session -t <name>"),
            Some(&[&["tmux"], &["attach-session", "-t", "<name>"]]),
            &["attach", "tmux attach", "reattach"],
            &["sessions", "cli"],
        ),
        entry(
            "new-window",
            "New Window",
            "Create a new tmux window",
            None,
            Some("new-window"),
            Some(&[&["Ctrl", "B"], &["C"]]),
            &["window", "create window"],
            &["windows"],
        ),
        entry(
            "split-horizontal",
            "Split Horizontal",
            "Split the current pane horizontally",
            None,
            Some("split-window -v"),
            Some(&[&["Ctrl", "B"], &["\""]]),
            &["pane split", "horizontal split"],
            &["panes"],
        ),
        entry(
            "split-vertical",
            "Split Vertical",
            "Split the current pane vertically",
            None,
            Some("split-window -h"),
            Some(&[&["Ctrl", "B"], &["%"]]),
            &["vertical split", "pane vertical"],
            &["panes"],
        ),
        entry(
            "next-window",
            "Next Window",
            "Move to the next tmux window",
            None,
            Some("next-window"),
            Some(&[&["Ctrl", "B"], &["n"]]),
            &["cycle window", "forward window"],
            &["windows"],
        ),
        entry(
            "previous-window",
            "Previous Window",
            "Move to the previous tmux window",
            None,
            Some("previous-window"),
            Some(&[&["Ctrl", "B"], &["p"]]),
            &["back window", "prev window"],
            &["windows"],
        ),
        entry(
            "list-windows",
            "List Windows",
            "Open the tmux window list",
            None,
            Some("list-windows"),
            Some(&[&["Ctrl", "B"], &["w"]]),
            &["window list", "choose window"],
            &["windows"],
        ),
        entry(
            "last-window",
            "Last Window",
            "Toggle the last active window",
            None,
            Some("last-window"),
            Some(&[&["Ctrl", "B"], &["l"]]),
            &["previous active window", "toggle window"],
            &["windows"],
        ),
        entry(
            "rename-window",
            "Rename Window",
            "Rename the current tmux window",
            None,
            Some("rename-window"),
            Some(&[&["Ctrl", "B"], &[","]]),
            &["window name", "rename pane group"],
            &["windows"],
        ),
        entry(
            "detach-session",
            "Detach Session",
            "Detach from the current tmux session",
            None,
            Some("detach-client"),
            Some(&[&["Ctrl", "B"], &["D"]]),
            &["detach", "leave session"],
            &["sessions"],
        ),
        entry(
            "choose-sessions",
            "Choose Session",
            "Open the tmux session switcher",
            None,
            Some("choose-tree -s"),
            Some(&[&["Ctrl", "B"], &["s"]]),
            &["session list", "switch session"],
            &["sessions"],
        ),
        entry(
            "previous-session",
            "Previous Session",
            "Move to the previous tmux session",
            None,
            Some("switch-client -p"),
            Some(&[&["Ctrl", "B"], &["("]]),
            &["prev session", "back session"],
            &["sessions"],
        ),
        entry(
            "next-session",
            "Next Session",
            "Move to the next tmux session",
            None,
            Some("switch-client -n"),
            Some(&[&["Ctrl", "B"], &[")"]]),
            &["forward session", "cycle session"],
            &["sessions"],
        ),
        entry(
            "copy-mode",
            "Copy Mode",
            "Enter tmux copy mode",
            None,
            Some("copy-mode"),
            Some(&[&["Ctrl", "B"], &["["]]),
            &["scrollback", "copy"],
            &["copy mode"],
        ),
        entry(
            "last-pane",
            "Last Pane",
            "Jump to the previously active pane",
            None,
            Some("last-pane"),
            Some(&[&["Ctrl", "B"], &[";"]]),
            &["previous pane", "toggle pane"],
            &["panes"],
        ),
        entry(
            "move-pane-left",
            "Move Pane Left",
            "Focus the pane on the left",
            None,
            Some("select-pane -L"),
            Some(&[&["Ctrl", "B"], &["Left"]]),
            &["pane left", "focus left"],
            &["panes", "navigation"],
        ),
        entry(
            "move-pane-right",
            "Move Pane Right",
            "Focus the pane on the right",
            None,
            Some("select-pane -R"),
            Some(&[&["Ctrl", "B"], &["Right"]]),
            &["pane right", "focus right"],
            &["panes", "navigation"],
        ),
        entry(
            "next-pane",
            "Next Pane",
            "Switch to the next tmux pane",
            None,
            Some("select-pane -t :.+"),
            Some(&[&["Ctrl", "B"], &["o"]]),
            &["cycle pane", "pane next"],
            &["panes"],
        ),
        entry(
            "show-pane-numbers",
            "Show Pane Numbers",
            "Temporarily show pane numbers",
            None,
            Some("display-panes"),
            Some(&[&["Ctrl", "B"], &["q"]]),
            &["pane ids", "pane numbers"],
            &["panes"],
        ),
        entry(
            "toggle-pane-zoom",
            "Toggle Pane Zoom",
            "Zoom or unzoom the current pane",
            None,
            Some("resize-pane -Z"),
            Some(&[&["Ctrl", "B"], &["z"]]),
            &["maximize pane", "zoom pane"],
            &["panes"],
        ),
        entry(
            "kill-pane",
            "Kill Pane",
            "Close the current pane",
            None,
            Some("kill-pane"),
            Some(&[&["Ctrl", "B"], &["x"]]),
            &["close pane", "delete pane"],
            &["panes"],
        ),
        entry(
            "resize-pane-left",
            "Resize Pane Left",
            "Resize the current pane to the left",
            None,
            Some("resize-pane -L"),
            Some(&[&["Ctrl", "B"], &["Ctrl", "Left"]]),
            &["shrink pane", "resize left"],
            &["panes", "resize"],
        ),
        entry(
            "resize-pane-right",
            "Resize Pane Right",
            "Resize the current pane to the right",
            None,
            Some("resize-pane -R"),
            Some(&[&["Ctrl", "B"], &["Ctrl", "Right"]]),
            &["grow pane", "resize right"],
            &["panes", "resize"],
        ),
        entry(
            "pane-layout",
            "Toggle Pane Layout",
            "Cycle through pane layouts",
            None,
            Some("select-layout"),
            Some(&[&["Ctrl", "B"], &["Space"]]),
            &["layout", "pane layout"],
            &["panes", "layout"],
        ),
        entry(
            "paste-buffer",
            "Paste Buffer",
            "Paste the current tmux buffer",
            None,
            Some("paste-buffer"),
            Some(&[&["Ctrl", "B"], &["]"]]),
            &["paste", "buffer paste"],
            &["copy mode", "buffers"],
        ),
        entry(
            "command-prompt",
            "Command Prompt",
            "Open the tmux command prompt",
            None,
            Some("command-prompt"),
            Some(&[&["Ctrl", "B"], &[":"]]),
            &["tmux command", "prompt"],
            &["misc"],
        ),
        entry(
            "list-keys",
            "List Keys",
            "Show all tmux key bindings",
            None,
            Some("list-keys"),
            Some(&[&["Ctrl", "B"], &["?"]]),
            &["help", "bindings", "shortcuts"],
            &["help"],
        ),
    ];
    assert(entries.deep_view() =~~= tmux_model().entries);
    sheet("tmux", "tmux", "mux", &["terminal", "multiplexer"], entries)
}

/// The models of the built-in sheets, in the order the launcher writes them.
pub open spec fn default_sheets_model() -> Seq<SheetModel> {
    seq![vscode_model(), figma_model(), terminal_model(), tmux_model()]
}

/// The cheat sheets written to an empty sheet directory.
pub fn default_cheat_sheets() -> (r: Vec<CheatSheet>)
    ensures
        r.deep_view() == default_sheets_model(),
{
    let r = vec![vscode_sheet(), figma_sheet(), terminal_sheet(), tmux_sheet()];
    assert(r.deep_view() =~= default_sheets_model());
    r
}

/// The built-in sheets are listed as Figma, Terminal, VS Code, tmux: sorting them by
/// name puts them in that order.
pub proof fn lemma_defaults_listed_by_name(sheets: Seq<CheatSheet>, listed: Seq<CheatSheet>)
    requires
        sheets.len() == default_sheets_model().len(),
        forall|k: int| 0 <= k < sheets.len() ==> (#[trigger] sheets[k])@ == default_sheets_model()[k],
        is_stable_sort_by_name(sheets, listed),
    ensures
        listed.len() == 4,
        listed[0]@ == figma_model(),
        listed[1]@ == terminal_model(),
        listed[2]@ == vscode_model(),
        listed[3]@ == tmux_model(),
{
    reveal_strlit("VS Code");
    reveal_strlit("Figma");
    reveal_strlit("Terminal");
    reveal_strlit("tmux");
    let m = default_sheets_model();
    assert(sheets[0]@ == m[0] && sheets[1]@ == m[1] && sheets[2]@ == m[2] && sheets[3]@ == m[3]);
    let figma = sheets[1].name@;
    let terminal = sheets[2].name@;
    let vscode = sheets[0].name@;
    let tmux = sheets[3].name@;
    assert(figma.len() == 5 && terminal.len() == 8 && vscode.len() == 7 && tmux.len() == 4);
    // the names differ, and compare on their first characters
    assert(names_distinct(sheets));
    assert(text_less(figma, terminal));
    assert(text_less(terminal, vscode));
    assert(text_less(vscode, tmux));
    lemma_text_less_transitive(figma, terminal, vscode);
    lemma_text_less_transitive(figma, vscode, tmux);
    lemma_text_less_transitive(terminal, vscode, tmux);
    // the sheets in name order
    let order = seq![1int, 2int, 0int, 3int];
    let expected = seq![sheets[1], sheets[2], sheets[0], sheets[3]];
    assert(index_hit(order, 0)) by { assert(order[2] == 0); }
    assert(index_hit(order, 1)) by { assert(order[0] == 1); }
    assert(index_hit(order, 2)) by { assert(order[1] == 2); }
    assert(index_hit(order, 3)) by { assert(order[3] == 3); }
    assert(rearranges(sheets, expected, order));
    assert forall|i: int, j: int| 0 <= i < j < 4 implies text_less(
        #[trigger] expected[i].name@,
        #[trigger] expected[j].name@,
    ) by {}
    assert forall|i: int, j: int| 0 <= i < j < 4 implies !text_less(
        #[trigger] expected[j].name@,
        #[trigger] expected[i].name@,
    ) by {
        lemma_text_less_asymmetric(expected[i].name@, expected[j].name@);
    }
    assert(sorted_by_name(expected));
    // `expected` is its own stable sort
    let identity = seq![0int, 1int, 2int, 3int];
    assert(index_hit(identity, 0)) by { assert(identity[0] == 0); }
    assert(index_hit(identity, 1)) by { assert(identity[1] == 1); }
    assert(index_hit(identity, 2)) by { assert(identity[2] == 2); }
    assert(index_hit(identity, 3)) by { assert(identity[3] == 3); }
    assert(stable_arrangement(expected, expected, identity));
    assert(is_stable_sort_by_name(expected, expected));
    lemma_sort_ignores_input_order(sheets, expected, order, listed, expected);
}

} // verus!
