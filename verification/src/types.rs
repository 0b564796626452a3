//! The data that the tools return.
use vstd::prelude::*;

verus! {

/// Metadata of a file in the vault.
#[derive(Debug, PartialEq, Eq)]
pub struct FileInfo {
    pub path: String,
    pub name: Option<String>,
    pub size: Option<u64>,
    pub created: Option<String>,
    pub modified: Option<String>,
}

/// The files of the vault.
#[derive(Debug, PartialEq, Eq)]
pub struct FileList {
    pub files: Vec<String>,
    pub count: usize,
}

/// The folders of the vault.
#[derive(Debug, PartialEq, Eq)]
pub struct FolderList {
    pub folders: Vec<String>,
    pub count: usize,
}

/// The content of a file.
#[derive(Debug, PartialEq, Eq)]
pub struct FileContent {
    pub path: String,
    pub content: String,
}

/// A note that was created.
#[derive(Debug, PartialEq, Eq)]
pub struct FileCreated {
    pub path: String,
    pub message: String,
}

/// A file that was changed, moved or renamed.
#[derive(Debug, PartialEq, Eq)]
pub struct FileModified {
    pub path: String,
    pub message: String,
}

/// One match of a search within a file.
#[derive(Debug, PartialEq, Eq)]
pub struct SearchMatch {
    pub line: Option<u32>,
    pub text: String,
}

/// The matches of a search within one file.
#[derive(Debug, PartialEq, Eq)]
pub struct SearchFileResult {
    pub file: String,
    pub matches: Vec<SearchMatch>,
}

/// The results of a search.
#[derive(Debug, PartialEq, Eq)]
pub struct SearchResults {
    pub query: String,
    pub results: Vec<SearchFileResult>,
    pub total_matches: usize,
}

/// A link between notes.
#[derive(Debug, PartialEq, Eq)]
pub struct LinkInfo {
    pub target: String,
    pub display_text: Option<String>,
}

/// The outgoing links of a file.
#[derive(Debug, PartialEq, Eq)]
pub struct LinkList {
    pub file: String,
    pub links: Vec<LinkInfo>,
    pub count: usize,
}

/// The incoming links of a file.
#[derive(Debug, PartialEq, Eq)]
pub struct BacklinkList {
    pub file: String,
    pub backlinks: Vec<LinkInfo>,
    pub count: usize,
}

/// A list of file paths.
#[derive(Debug, PartialEq, Eq)]
pub struct FilePathList {
    pub files: Vec<String>,
    pub count: usize,
}

/// A frontmatter property, its value written as JSON.
#[derive(Debug, PartialEq, Eq)]
pub struct PropertyValue {
    pub name: String,
    pub value: String,
}

/// The frontmatter properties of a file.
#[derive(Debug, PartialEq, Eq)]
pub struct PropertyList {
    pub file: String,
    pub properties: Vec<PropertyValue>,
}

/// The aliases of a file.
#[derive(Debug, PartialEq, Eq)]
pub struct AliasList {
    pub file: String,
    pub aliases: Vec<String>,
}

/// A tag and how often it is used.
#[derive(Debug, PartialEq, Eq)]
pub struct TagCount {
    pub tag: String,
    pub count: usize,
}

/// The tags of the vault.
#[derive(Debug, PartialEq, Eq)]
pub struct TagList {
    pub tags: Vec<TagCount>,
    pub total: usize,
}

/// The files that carry a tag.
#[derive(Debug, PartialEq, Eq)]
pub struct TagFiles {
    pub tag: String,
    pub files: Vec<String>,
    pub count: usize,
}

/// What was done with the daily note.
#[derive(Debug, PartialEq, Eq)]
pub struct DailyNoteResult {
    pub path: String,
    pub message: String,
}

/// A heading of a file.
#[derive(Debug, PartialEq, Eq)]
pub struct OutlineEntry {
    pub heading: String,
    pub level: u8,
    pub line: Option<u32>,
}

/// The headings of a file.
#[derive(Debug, PartialEq, Eq)]
pub struct OutlineResult {
    pub file: String,
    pub headings: Vec<OutlineEntry>,
}

/// A task (checkbox) in the vault.
#[derive(Debug, PartialEq, Eq)]
pub struct TaskItem {
    pub text: String,
    pub file: String,
    pub completed: bool,
    pub line: Option<u32>,
}

/// The tasks of the vault.
#[derive(Debug, PartialEq, Eq)]
pub struct VaultTaskList {
    pub tasks: Vec<TaskItem>,
    pub total: usize,
}

/// The templates of the vault.
#[derive(Debug, PartialEq, Eq)]
pub struct TemplateList {
    pub templates: Vec<String>,
    pub count: usize,
}

/// The word and character counts of a file.
#[derive(Debug, PartialEq, Eq)]
pub struct WordCountResult {
    pub file: String,
    pub words: u64,
    pub characters: Option<u64>,
}

/// The commands Obsidian offers.
#[derive(Debug, PartialEq, Eq)]
pub struct CommandList {
    pub commands: Vec<String>,
    pub count: usize,
}

/// A command that was run.
#[derive(Debug, PartialEq, Eq)]
pub struct CommandResult {
    pub command: String,
    pub message: String,
}

/// What evaluated JavaScript returned, written as JSON.
#[derive(Debug, PartialEq, Eq)]
pub struct EvalResult {
    pub result: String,
}

/// The outcome of an operation that returns no data.
#[derive(Debug, PartialEq, Eq)]
pub struct SuccessResult {
    pub success: bool,
    pub message: String,
}

/// A find-and-replace that was applied.
#[derive(Debug, PartialEq, Eq)]
pub struct PatchResult {
    pub path: String,
    pub replacements: usize,
    pub message: String,
}

} // verus!
