//! Cheat sheets and their entries, with their mathematical models.
use vstd::prelude::*;

verus! {

/// One shortcut or command described by a cheat sheet.
#[derive(Debug)]
pub struct CheatSheetEntry {
    pub id: String,
    pub name: String,
    pub action: String,
    /// Keys pressed together.
    pub command: Option<Vec<String>>,
    /// A command typed as text.
    pub command_text: Option<String>,
    /// Key chords pressed one after the other.
    pub command_sequence: Option<Vec<Vec<String>>>,
    pub aliases: Vec<String>,
    pub tags: Vec<String>,
}

/// A named collection of entries for one application.
#[derive(Debug)]
pub struct CheatSheet {
    pub id: String,
    pub name: String,
    pub icon: Option<String>,
    pub tags: Vec<String>,
    pub entries: Vec<CheatSheetEntry>,
}

/// What the launcher hands to its interface: where the sheets live, and the sheets.
#[derive(Debug)]
pub struct CheatSheetsPayload {
    pub directory: String,
    pub sheets: Vec<CheatSheet>,
}

/// The model of an entry: every text as its character sequence.
#[verifier::ext_equal]
pub struct EntryModel {
    pub id: Seq<char>,
    pub name: Seq<char>,
    pub action: Seq<char>,
    pub command: Option<Seq<Seq<char>>>,
    pub command_text: Option<Seq<char>>,
    pub command_sequence: Option<Seq<Seq<Seq<char>>>>,
    pub aliases: Seq<Seq<char>>,
    pub tags: Seq<Seq<char>>,
}

/// The model of a sheet.
#[verifier::ext_equal]
pub struct SheetModel {
    pub id: Seq<char>,
    pub name: Seq<char>,
    pub icon: Option<Seq<char>>,
    pub tags: Seq<Seq<char>>,
    pub entries: Seq<EntryModel>,
}

/// The model of a payload.
#[verifier::ext_equal]
pub struct PayloadModel {
    pub directory: Seq<char>,
    pub sheets: Seq<SheetModel>,
}

impl View for CheatSheetEntry {
    type V = EntryModel;

    open spec fn view(&self) -> EntryModel {
        EntryModel {
            id: self.id@,
            name: self.name@,
            action: self.action@,
            command: self.command.deep_view(),
            command_text: self.command_text.deep_view(),
            command_sequence: self.command_sequence.deep_view(),
            aliases: self.aliases.deep_view(),
            tags: self.tags.deep_view(),
        }
    }
}

impl DeepView for CheatSheetEntry {
    type V = EntryModel;

    open spec fn deep_view(&self) -> EntryModel {
        self@
    }
}

impl View for CheatSheet {
    type V = SheetModel;

    open spec fn view(&self) -> SheetModel {
        SheetModel {
            id: self.id@,
            name: self.name@,
            icon: self.icon.deep_view(),
            tags: self.tags.deep_view(),
            entries: self.entries.deep_view(),
        }
    }
}

impl DeepView for CheatSheet {
    type V = SheetModel;

    open spec fn deep_view(&self) -> SheetModel {
        self@
    }
}

impl View for CheatSheetsPayload {
    type V = PayloadModel;

    open spec fn view(&self) -> PayloadModel {
        PayloadModel { directory: self.directory@, sheets: self.sheets.deep_view() }
    }
}

impl CheatSheetsPayload {
    /// The payload for the sheets found in `directory`.
    pub fn new(directory: String, sheets: Vec<CheatSheet>) -> (r: CheatSheetsPayload)
        ensures
            r.directory == directory,
            r.sheets == sheets,
    {
        CheatSheetsPayload { directory, sheets }
    }
}

} // verus!
