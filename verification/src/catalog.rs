//! The catalog of built-in cheat sheets: every text of every built-in sheet and entry,
//! stated field by field.
use vstd::prelude::*;
use crate::defaults::default_sheets_model;
use crate::sheet::EntryModel;

verus! {

/// The built-in VS Code sheet, field by field, as the launcher ships it.
pub proof fn lemma_builtin_vscode_sheet()
    ensures
        ({
            let m = default_sheets_model();
            &&& m.len() == 4
            &&& m[0].id == "vscode"@
            &&& m[0].name == "VS Code"@
            &&& m[0].icon == Some("code"@)
            &&& m[0].tags =~= seq!["editor"@, "typescript"@]
            &&& m[0].entries.len() == 3
            &&& m[0].entries[0] =~~= (EntryModel {
            id: "command-palette"@,
            name: "Command Palette"@,
            action: "Open the command palette"@,
            command: Some(seq!["Cmd"@, "Shift"@, "P"@]),
            command_text: None,
            command_sequence: None,
            aliases: seq!["palette"@, "commands"@],
            tags: seq!["search"@],
        })
            &&& m[0].entries[1] =~~= (EntryModel {
            id: "quick-open"@,
            name: "Quick Open"@,
            action: "Search files in the workspace"@,
            command: Some(seq!["Cmd"@, "P"@]),
            command_text: None,
            command_sequence: None,
            aliases: seq!["go to file"@, "open file"@],
            tags: seq!["files"@],
        })
            &&& m[0].entries[2] =~~= (EntryModel {
            id: "terminal"@,
            name: "Integrated Terminal"@,
            action: "Toggle the integrated terminal"@,
            command: Some(seq!["Ctrl"@, "`"@]),
            command_text: None,
            command_sequence: None,
            aliases: seq!["shell"@, "console"@],
            tags: seq!["terminal"@],
        })
        }),
{
}

/// The built-in Figma sheet, field by field, as the launcher ships it.
pub proof fn lemma_builtin_figma_sheet()
    ensures
        ({
            let m = default_sheets_model();
            &&& m.len() == 4
            &&& m[1].id == "figma"@
            &&& m[1].name == "Figma"@
            &&& m[1].icon == Some("fig"@)
            &&& m[1].tags =~= seq!["design"@, "ui"@]
            &&& m[1].entries.len() == 3
            &&& m[1].entries[0] =~~= (EntryModel {
            id: "frame-tool"@,
            name: "Frame Tool"@,
            action: "Create a new frame"@,
            command: Some(seq!["F"@]),
            command_text: None,
            command_sequence: None,
            aliases: seq!["artboard"@],
            tags: seq!["layout"@],
        })
            &&& m[1].entries[1] =~~= (EntryModel {
            id: "scale-tool"@,
            name: "Scale Tool"@,
            action: "Scale a selection proportionally"@,
            command: Some(seq!["K"@]),
            command_text: None,
            command_sequence: None,
            aliases: seq!["resize"@],
            tags: seq!["selection"@],
        })
            &&& m[1].entries[2] =~~= (EntryModel {
            id: "format-painter"@,
            name: "Copy and Paste Properties"@,
            action: "Copy properties, then paste them elsewhere"@,
            command: None,
            command_text: None,
            command_sequence: Some(seq![seq!["Option"@, "Cmd"@, "C"@], seq!["Option"@, "Cmd"@, "V"@]]),
            aliases: seq!["styles"@, "properties"@],
            tags: seq!["style"@],
        })
        }),
{
}

/// The built-in Terminal sheet, field by field, as the launcher ships it.
pub proof fn lemma_builtin_terminal_sheet()
    ensures
        ({
            let m = default_sheets_model();
            &&& m.len() == 4
            &&& m[2].id == "terminal"@
            &&& m[2].name == "Terminal"@
            &&& m[2].icon == Some("prompt"@)
            &&& m[2].tags =~= seq!["shell"@, "cli"@]
            &&& m[2].entries.len() == 3
            &&& m[2].entries[0] =~~= (EntryModel {
            id: "clear-line"@,
            name: "Clear Line"@,
            action: "Delete from cursor to start of line"@,
            command: Some(seq!["Ctrl"@, "U"@]),
            command_text: None,
            command_sequence: None,
            aliases: seq!["kill line"@],
            tags: seq!["editing"@],
        })
            &&& m[2].entries[1] =~~= (EntryModel {
            id: "last-command"@,
            name: "Last Command Arguments"@,
            action: "Insert the last command argument"@,
            command: Some(seq!["Esc"@, "."@]),
            command_text: None,
            command_sequence: None,
            aliases: seq!["argument"@],
            tags: seq!["history"@],
        })
            &&& m[2].entries[2] =~~= (EntryModel {
            id: "reverse-search"@,
            name: "Reverse Search"@,
            action: "Search shell history backwards"@,
            command: Some(seq!["Ctrl"@, "R"@]),
            command_text: None,
            command_sequence: None,
            aliases: seq!["history search"@],
            tags: seq!["history"@],
        })
        }),
{
}

/// The built-in tmux sheet, field by field, as the launcher ships it.
pub proof fn lemma_builtin_tmux_sheet()
    ensures
        ({
            let m = default_sheets_model();
            &&& m.len() == 4
            &&& m[3].id == "tmux"@
            &&& m[3].name == "tmux"@
            &&& m[3].icon == Some("mux"@)
            &&& m[3].tags =~= seq!["terminal"@, "multiplexer"@]
            &&& m[3].entries.len() == 29
            &&& m[3].entries[0] =~~= (EntryModel {
            id: "new-session"@,
            name: "New Session"@,
            action: "Start a new tmux session"@,
            command: None,
            command_text: Some("tmux new-session"@),
            command_sequence: Some(seq![seq!["tmux"@], seq!["new-session"@]]),
            aliases: seq!["tmux new"@, "session start"@],
            tags: seq!["sessions"@, "cli"@],
        })
            &&& m[3].entries[1] =~~= (EntryModel {
            id: "list-sessions"@,
            name: "List Sessions"@,
            action: "Show all tmux sessions"@,
            command: None,
            command_text: Some("tmux list-sessions"@),
            command_sequence: Some(seq![seq!["tmux"@], seq!["list-sessions"@]]),
            aliases: seq!["tmux ls"@, "sessions list"@],
            tags: seq!["sessions"@, "cli"@],
        })
            &&& m[3].entries[2] =~~= (EntryModel {
            id: "attach-session"@,
            name: "Attach Session"@,
            action: "Attach to the last or named tmux session"@,
            command: None,
            command_text: Some("tmux attach-session -t <name>"@),
            command_sequence: Some(seq![seq!["tmux"@], seq!["attach-session"@, "-t"@, "<name>"@]]),
            aliases: seq!["attach"@, "tmux attach"@, "reattach"@],
            tags: seq!["sessions"@, "cli"@],
        })
            &&& m[3].entries[3] =~~= (EntryModel {
            id: "new-window"@,
            name: "New Window"@,
            action: "Create a new tmux window"@,
            command: None,
            command_text: Some("new-window"@),
            command_sequence: Some(seq![seq!["Ctrl"@, "B"@], seq!["C"@]]),
            aliases: seq!["window"@, "create window"@],
            tags: seq!["windows"@],
        })
            &&& m[3].entries[4] =~~= (EntryModel {
            id: "split-horizontal"@,
            name: "Split Horizontal"@,
            action: "Split the current pane horizontally"@,
            command: None,
            command_text: Some("split-window -v"@),
            command_sequence: Some(seq![seq!["Ctrl"@, "B"@], seq!["\""@]]),
            aliases: seq!["pane split"@, "horizontal split"@],
            tags: seq!["panes"@],
        })
            &&& m[3].entries[5] =~~= (EntryModel {
            id: "split-vertical"@,
            name: "Split Vertical"@,
            action: "Split the current pane vertically"@,
            command: None,
            command_text: Some("split-window -h"@),
            command_sequence: Some(seq![seq!["Ctrl"@, "B"@], seq!["%"@]]),
            aliases: seq!["vertical split"@, "pane vertical"@],
            tags: seq!["panes"@],
        })
            &&& m[3].entries[6] =~~= (EntryModel {
            id: "next-window"@,
            name: "Next Window"@,
            action: "Move to the next tmux window"@,
            command: None,
            command_text: Some("next-window"@),
            command_sequence: Some(seq![seq!["Ctrl"@, "B"@], seq!["n"@]]),
            aliases: seq!["cycle window"@, "forward window"@],
            tags: seq!["windows"@],
        })
            &&& m[3].entries[7] =~~= (EntryModel {
            id: "previous-window"@,
            name: "Previous Window"@,
            action: "Move to the previous tmux window"@,
            command: None,
            command_text: Some("previous-window"@),
            command_sequence: Some(seq![seq!["Ctrl"@, "B"@], seq!["p"@]]),
            aliases: seq!["back window"@, "prev window"@],
            tags: seq!["windows"@],
        })
            &&& m[3].entries[8] =~~= (EntryModel {
            id: "list-windows"@,
            name: "List Windows"@,
            action: "Open the tmux window list"@,
            command: None,
            command_text: Some("list-windows"@),
            command_sequence: Some(seq![seq!["Ctrl"@, "B"@], seq!["w"@]]),
            aliases: seq!["window list"@, "choose window"@],
            tags: seq!["windows"@],
        })
            &&& m[3].entries[9] =~~= (EntryModel {
            id: "last-window"@,
            name: "Last Window"@,
            action: "Toggle the last active window"@,
            command: None,
            command_text: Some("last-window"@),
            command_sequence: Some(seq![seq!["Ctrl"@, "B"@], seq!["l"@]]),
            aliases: seq!["previous active window"@, "toggle window"@],
            tags: seq!["windows"@],
        })
            &&& m[3].entries[10] =~~= (EntryModel {
            id: "rename-window"@,
            name: "Rename Window"@,
            action: "Rename the current tmux window"@,
            command: None,
            command_text: Some("rename-window"@),
            command_sequence: Some(seq![seq!["Ctrl"@, "B"@], seq![","@]]),
            aliases: seq!["window name"@, "rename pane group"@],
            tags: seq!["windows"@],
        })
            &&& m[3].entries[11] =~~= (EntryModel {
            id: "detach-session"@,
            name: "Detach Session"@,
            action: "Detach from the current tmux session"@,
            command: None,
            command_text: Some("detach-client"@),
            command_sequence: Some(seq![seq!["Ctrl"@, "B"@], seq!["D"@]]),
            aliases: seq!["detach"@, "leave session"@],
            tags: seq!["sessions"@],
        })
            &&& m[3].entries[12] =~~= (EntryModel {
            id: "choose-sessions"@,
            name: "Choose Session"@,
            action: "Open the tmux session switcher"@,
            command: None,
            command_text: Some("choose-tree -s"@),
            command_sequence: Some(seq![seq!["Ctrl"@, "B"@], seq!["s"@]]),
            aliases: seq!["session list"@, "switch session"@],
            tags: seq!["sessions"@],
        })
            &&& m[3].entries[13] =~~= (EntryModel {
            id: "previous-session"@,
            name: "Previous Session"@,
            action: "Move to the previous tmux session"@,
            command: None,
            command_text: Some("switch-client -p"@),
            command_sequence: Some(seq![seq!["Ctrl"@, "B"@], seq!["("@]]),
            aliases: seq!["prev session"@, "back session"@],
            tags: seq!["sessions"@],
        })
            &&& m[3].entries[14] =~~= (EntryModel {
            id: "next-session"@,
            name: "Next Session"@,
            action: "Move to the next tmux session"@,
            command: None,
            command_text: Some("switch-client -n"@),
            command_sequence: Some(seq![seq!["Ctrl"@, "B"@], seq![")"@]]),
            aliases: seq!["forward session"@, "cycle session"@],
            tags: seq!["sessions"@],
        })
            &&& m[3].entries[15] =~~= (EntryModel {
            id: "copy-mode"@,
            name: "Copy Mode"@,
            action: "Enter tmux copy mode"@,
            command: None,
            command_text: Some("copy-mode"@),
            command_sequence: Some(seq![seq!["Ctrl"@, "B"@], seq!["["@]]),
            aliases: seq!["scrollback"@, "copy"@],
            tags: seq!["copy mode"@],
        })
            &&& m[3].entries[16] =~~= (EntryModel {
            id: "last-pane"@,
            name: "Last Pane"@,
            action: "Jump to the previously active pane"@,
            command: None,
            command_text: Some("last-pane"@),
            command_sequence: Some(seq![seq!["Ctrl"@, "B"@], seq![";"@]]),
            aliases: seq!["previous pane"@, "toggle pane"@],
            tags: seq!["panes"@],
        })
            &&& m[3].entries[17] =~~= (EntryModel {
            id: "move-pane-left"@,
            name: "Move Pane Left"@,
            action: "Focus the pane on the left"@,
            command: None,
            command_text: Some("select-pane -L"@),
            command_sequence: Some(seq![seq!["Ctrl"@, "B"@], seq!["Left"@]]),
            aliases: seq!["pane left"@, "focus left"@],
            tags: seq!["panes"@, "navigation"@],
        })
            &&& m[3].entries[18] =~~= (EntryModel {
            id: "move-pane-right"@,
            name: "Move Pane Right"@,
            action: "Focus the pane on the right"@,
            command: None,
            command_text: Some("select-pane -R"@),
            command_sequence: Some(seq![seq!["Ctrl"@, "B"@], seq!["Right"@]]),
            aliases: seq!["pane right"@, "focus right"@],
            tags: seq!["panes"@, "navigation"@],
        })
            &&& m[3].entries[19] =~~= (EntryModel {
            id: "next-pane"@,
            name: "Next Pane"@,
            action: "Switch to the next tmux pane"@,
            command: None,
            command_text: Some("select-pane -t :.+"@),
            command_sequence: Some(seq![seq!["Ctrl"@, "B"@], seq!["o"@]]),
            aliases: seq!["cycle pane"@, "pane next"@],
            tags: seq!["panes"@],
        })
            &&& m[3].entries[20] =~~= (EntryModel {
            id: "show-pane-numbers"@,
            name: "Show Pane Numbers"@,
            action: "Temporarily show pane numbers"@,
            command: None,
            command_text: Some("display-panes"@),
            command_sequence: Some(seq![seq!["Ctrl"@, "B"@], seq!["q"@]]),
            aliases: seq!["pane ids"@, "pane numbers"@],
            tags: seq!["panes"@],
        })
            &&& m[3].entries[21] =~~= (EntryModel {
            id: "toggle-pane-zoom"@,
            name: "Toggle Pane Zoom"@,
            action: "Zoom or unzoom the current pane"@,
            command: None,
            command_text: Some("resize-pane -Z"@),
            command_sequence: Some(seq![seq!["Ctrl"@, "B"@], seq!["z"@]]),
            aliases: seq!["maximize pane"@, "zoom pane"@],
            tags: seq!["panes"@],
        })
            &&& m[3].entries[22] =~~= (EntryModel {
            id: "kill-pane"@,
            name: "Kill Pane"@,
            action: "Close the current pane"@,
            command: None,
            command_text: Some("kill-pane"@),
            command_sequence: Some(seq![seq!["Ctrl"@, "B"@], seq!["x"@]]),
            aliases: seq!["close pane"@, "delete pane"@],
            tags: seq!["panes"@],
        })
            &&& m[3].entries[23] =~~= (EntryModel {
            id: "resize-pane-left"@,
            name: "Resize Pane Left"@,
            action: "Resize the current pane to the left"@,
            command: None,
            command_text: Some("resize-pane -L"@),
            command_sequence: Some(seq![seq!["Ctrl"@, "B"@], seq!["Ctrl"@, "Left"@]]),
            aliases: seq!["shrink pane"@, "resize left"@],
            tags: seq!["panes"@, "resize"@],
        })
            &&& m[3].entries[24] =~~= (EntryModel {
            id: "resize-pane-right"@,
            name: "Resize Pane Right"@,
            action: "Resize the current pane to the right"@,
            command: None,
            command_text: Some("resize-pane -R"@),
            command_sequence: Some(seq![seq!["Ctrl"@, "B"@], seq!["Ctrl"@, "Right"@]]),
            aliases: seq!["grow pane"@, "resize right"@],
            tags: seq!["panes"@, "resize"@],
        })
            &&& m[3].entries[25] =~~= (EntryModel {
            id: "pane-layout"@,
            name: "Toggle Pane Layout"@,
            action: "Cycle through pane layouts"@,
            command: None,
            command_text: Some("select-layout"@),
            command_sequence: Some(seq![seq!["Ctrl"@, "B"@], seq!["Space"@]]),
            aliases: seq!["layout"@, "pane layout"@],
            tags: seq!["panes"@, "layout"@],
        })
            &&& m[3].entries[26] =~~= (EntryModel {
            id: "paste-buffer"@,
            name: "Paste Buffer"@,
            action: "Paste the current tmux buffer"@,
            command: None,
            command_text: Some("paste-buffer"@),
            command_sequence: Some(seq![seq!["Ctrl"@, "B"@], seq!["]"@]]),
            aliases: seq!["paste"@, "buffer paste"@],
            tags: seq!["copy mode"@, "buffers"@],
        })
            &&& m[3].entries[27] =~~= (EntryModel {
            id: "command-prompt"@,
            name: "Command Prompt"@,
            action: "Open the tmux command prompt"@,
            command: None,
            command_text: Some("command-prompt"@),
            command_sequence: Some(seq![seq!["Ctrl"@, "B"@], seq![":"@]]),
            aliases: seq!["tmux command"@, "prompt"@],
            tags: seq!["misc"@],
        })
            &&& m[3].entries[28] =~~= (EntryModel {
            id: "list-keys"@,
            name: "List Keys"@,
            action: "Show all tmux key bindings"@,
            command: None,
            command_text: Some("list-keys"@),
            command_sequence: Some(seq![seq!["Ctrl"@, "B"@], seq!["?"@]]),
            aliases: seq!["help"@, "bindings"@, "shortcuts"@],
            tags: seq!["help"@],
        })
        }),
{
}

} // verus!
