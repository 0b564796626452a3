//! The tools, prompts and resources of the server: the arguments each gives the command
//! line, and what each makes of the answer.
//!
//! A tool runs in three steps. The functions named `*_args` give the arguments of the call
//! (the vault argument is added by [`ObsidianCli::command_args`]); the caller runs the
//! command; the other functions here turn what came back into the tool's result.
use vstd::prelude::*;
use crate::cli::{CliError, ObsidianCli};
use crate::js::{
    eval_modify_js, eval_patch_js, eval_replace_line_js, js_escape, modify_payload, modify_script,
    patch_method, patch_payload, patch_script, replace_line_payload, replace_line_script,
};
use crate::json::{
    Json, array_strings, json_canonical_of, json_object_entries, json_object_entries_of, json_of_strings,
    json_pretty_of, json_string, json_string_of, opt_view, pair_views,
    parse_json_array_as_strings,
};
use crate::text::{
    chars_of, concat2, concat3, concat5, contains_char, decimal, join, join_strings, owned,
    parse_u64, parse_u64_chars, str_eq, trim, trim_str, u64_to_string, views, words, words_of,
};
use crate::types::{
    AliasList, BacklinkList, CommandList, CommandResult, DailyNoteResult, EvalResult, FileContent,
    FileCreated, FileInfo, FileList, FileModified, FilePathList, FolderList, LinkInfo, LinkList,
    OutlineEntry, OutlineResult, PatchResult, PropertyList, PropertyValue, SearchFileResult,
    SearchResults, SuccessResult, TagCount, TagFiles, TagList, TaskItem, TemplateList,
    VaultTaskList, WordCountResult,
};

verus! {

// ---------------------------------------------------------------------------
// The arguments of the tools
// ---------------------------------------------------------------------------

/// A file, by its path relative to the vault's root.
pub struct FilePathArg {
    pub file: String,
}

/// How to list the files: an order (`name`, `modified`, `created` or `size`) and a limit.
pub struct ListFilesArgs {
    pub sort: Option<String>,
    pub limit: Option<String>,
}

/// A note to create: its path or name, content, and template.
pub struct CreateFileArgs {
    pub name: String,
    pub content: Option<String>,
    pub template: Option<String>,
}

/// A file and the markdown to add to it.
pub struct AppendPrependArgs {
    pub file: String,
    pub content: String,
}

/// A file and where it goes.
pub struct MoveFileArgs {
    pub file: String,
    pub to: String,
}

/// A file and its new name.
pub struct RenameFileArgs {
    pub file: String,
    pub to: String,
}

/// A full-text query.
pub struct SearchArgs {
    pub query: String,
}

/// A frontmatter property to set.
pub struct SetPropertyArgs {
    pub file: String,
    pub name: String,
    pub value: String,
}

/// A frontmatter property to remove.
pub struct RemovePropertyArgs {
    pub file: String,
    pub name: String,
}

/// A tag, without its `#`.
pub struct TagArg {
    pub tag: String,
}

/// A tag and its new name.
pub struct RenameTagArgs {
    pub old: String,
    pub new: String,
}

/// Markdown for the daily note.
pub struct DailyContentArgs {
    pub content: String,
}

/// The id of an Obsidian command.
pub struct CommandArg {
    pub id: String,
}

/// JavaScript to evaluate in Obsidian.
pub struct EvalArg {
    pub code: String,
}

/// A find-and-replace in a file; by default only the first match is replaced.
pub struct PatchFileArgs {
    pub file: String,
    pub find: String,
    pub replace: String,
    pub replace_all: Option<bool>,
}

/// A line (counted from one) to replace, with the text it is expected to hold.
pub struct ReplaceLineArgs {
    pub file: String,
    pub line: u32,
    pub expected: String,
    pub replace: String,
}

/// A topic to look for related notes about.
pub struct FindRelatedArgs {
    pub topic: String,
}

/// The message a tool reports for a failed call of the command line.
pub fn cli_err(e: CliError) -> (r: String)
    ensures
        r@ == e.message(),
{
    e.to_tool_error()
}

// ---------------------------------------------------------------------------
// Building argument lists
// ---------------------------------------------------------------------------

fn bare(name: &str) -> (r: Vec<String>)
    ensures
        views(r@) == seq![name@],
{
    let mut v: Vec<String> = Vec::new();
    v.push(owned(name));
    assert(views(v@) =~= seq![name@]);
    v
}

fn with_param(name: &str, key: &str, value: &str) -> (r: Vec<String>)
    ensures
        views(r@) == seq![name@, key@ + value@],
{
    let mut v: Vec<String> = Vec::new();
    v.push(owned(name));
    v.push(concat2(key, value));
    assert(views(v@) =~= seq![name@, key@ + value@]);
    v
}

fn with_params2(name: &str, k1: &str, v1: &str, k2: &str, v2: &str) -> (r: Vec<String>)
    ensures
        views(r@) == seq![name@, k1@ + v1@, k2@ + v2@],
{
    let mut v: Vec<String> = Vec::new();
    v.push(owned(name));
    v.push(concat2(k1, v1));
    v.push(concat2(k2, v2));
    assert(views(v@) =~= seq![name@, k1@ + v1@, k2@ + v2@]);
    v
}

fn with_params3(name: &str, k1: &str, v1: &str, k2: &str, v2: &str, k3: &str, v3: &str) -> (r:
    Vec<String>)
    ensures
        views(r@) == seq![name@, k1@ + v1@, k2@ + v2@, k3@ + v3@],
{
    let mut v: Vec<String> = Vec::new();
    v.push(owned(name));
    v.push(concat2(k1, v1));
    v.push(concat2(k2, v2));
    v.push(concat2(k3, v3));
    assert(views(v@) =~= seq![name@, k1@ + v1@, k2@ + v2@, k3@ + v3@]);
    v
}

/// `key` followed by the value, where there is one.
pub open spec fn opt_param(key: Seq<char>, v: Option<String>) -> Seq<Seq<char>> {
    match v {
        Some(s) => seq![key + s@],
        None => seq![],
    }
}

fn push_opt_param(args: &mut Vec<String>, key: &str, value: &Option<String>)
    ensures
        views(final(args)@) == views(old(args)@) + opt_param(key@, *value),
{
    match value {
        Some(s) => {
            let ghost before = views(args@);
            args.push(concat2(key, s.as_str()));
            assert(views(args@) =~= before + seq![key@ + s@]);
        },
        None => {
            assert(views(args@) =~= views(args@) + Seq::<Seq<char>>::empty());
        },
    }
}

// ---------------------------------------------------------------------------
// Files and folders
// ---------------------------------------------------------------------------

/// `files`, with the order and the limit where given.
pub fn list_files_args(args: &ListFilesArgs) -> (r: Vec<String>)
    ensures
        views(r@) == seq!["files"@] + opt_param("sort="@, args.sort) + opt_param(
            "limit="@,
            args.limit,
        ),
{
    let mut v = bare("files");
    push_opt_param(&mut v, "sort=", &args.sort);
    push_opt_param(&mut v, "limit=", &args.limit);
    v
}

/// The files that the command listed.
pub fn file_list(result: &Json) -> (r: FileList)
    ensures
        views(r.files@) == array_strings(result@),
        r.count == r.files.len(),
{
    let files = parse_json_array_as_strings(result);
    let count = files.len();
    FileList { files, count }
}

/// `folders`.
pub fn list_folders_args() -> (r: Vec<String>)
    ensures
        views(r@) == seq!["folders"@],
{
    bare("folders")
}

/// The folders that the command listed.
pub fn folder_list(result: &Json) -> (r: FolderList)
    ensures
        views(r.folders@) == array_strings(result@),
        r.count == r.folders.len(),
{
    let folders = parse_json_array_as_strings(result);
    let count = folders.len();
    FolderList { folders, count }
}

/// `read file=<file>` (its output is taken as text).
pub fn read_file_args(args: &FilePathArg) -> (r: Vec<String>)
    ensures
        views(r@) == seq!["read"@, "file="@ + args.file@],
{
    with_param("read", "file=", args.file.as_str())
}

/// `file file=<file>`.
pub fn file_info_args(args: &FilePathArg) -> (r: Vec<String>)
    ensures
        views(r@) == seq!["file"@, "file="@ + args.file@],
{
    with_param("file", "file=", args.file.as_str())
}

/// The metadata, or the message of a document that is not metadata.
pub fn file_info_result(parsed: Result<FileInfo, String>) -> (r: Result<FileInfo, String>)
    ensures
        match parsed {
            Ok(info) => r == Ok::<FileInfo, String>(info),
            Err(e) => r matches Err(m) && m@ == "Failed to parse file info: "@ + e@,
        },
{
    match parsed {
        Ok(info) => Ok(info),
        Err(e) => Err(concat2("Failed to parse file info: ", e.as_str())),
    }
}

/// Whether a name is a path: it holds a '/' or a '\'.
pub open spec fn is_path(name: Seq<char>) -> bool {
    name.contains('/') || name.contains('\\')
}

/// `create`, then `path=<name>` where the name is a path and `name=<name>` where it is not,
/// then the content and the template where given.
pub fn create_file_args(args: &CreateFileArgs) -> (r: Vec<String>)
    ensures
        views(r@) == seq![
            "create"@,
            if is_path(args.name@) {
                "path="@ + args.name@
            } else {
                "name="@ + args.name@
            },
        ] + opt_param("content="@, args.content) + opt_param("template="@, args.template),
{
    let n = chars_of(args.name.as_str());
    let is_path = contains_char(n.as_slice(), '/') || contains_char(n.as_slice(), '\\');
    let mut v = if is_path {
        with_param("create", "path=", args.name.as_str())
    } else {
        with_param("create", "name=", args.name.as_str())
    };
    push_opt_param(&mut v, "content=", &args.content);
    push_opt_param(&mut v, "template=", &args.template);
    v
}

/// The note that was created.
pub fn create_file_result(args: CreateFileArgs) -> (r: FileCreated)
    ensures
        r.path == args.name,
        r.message@ == "File created successfully"@,
{
    FileCreated { path: args.name, message: owned("File created successfully") }
}

/// `append file=<file> content=<content>`.
pub fn append_to_file_args(args: &AppendPrependArgs) -> (r: Vec<String>)
    ensures
        views(r@) == seq!["append"@, "file="@ + args.file@, "content="@ + args.content@],
{
    with_params2("append", "file=", args.file.as_str(), "content=", args.content.as_str())
}

/// The file that content was appended to.
pub fn append_to_file_result(args: AppendPrependArgs) -> (r: FileModified)
    ensures
        r.path == args.file,
        r.message@ == "Content appended successfully"@,
{
    FileModified { path: args.file, message: owned("Content appended successfully") }
}

/// `prepend file=<file> content=<content>`.
pub fn prepend_to_file_args(args: &AppendPrependArgs) -> (r: Vec<String>)
    ensures
        views(r@) == seq!["prepend"@, "file="@ + args.file@, "content="@ + args.content@],
{
    with_params2("prepend", "file=", args.file.as_str(), "content=", args.content.as_str())
}

/// The file that content was prepended to.
pub fn prepend_to_file_result(args: AppendPrependArgs) -> (r: FileModified)
    ensures
        r.path == args.file,
        r.message@ == "Content prepended successfully"@,
{
    FileModified { path: args.file, message: owned("Content prepended successfully") }
}

/// `eval code=<script>`, the script writing the content as the whole file.
pub fn write_file_args(args: &AppendPrependArgs) -> (r: Vec<String>)
    ensures
        views(r@) == seq![
            "eval"@,
            "code="@ + modify_script(js_escape(modify_payload(args.file@, args.content@))),
        ],
{
    let js = eval_modify_js(args.file.as_str(), args.content.as_str());
    with_param("eval", "code=", js.as_str())
}

/// The file that was rewritten.
pub fn write_file_result(args: AppendPrependArgs) -> (r: FileModified)
    ensures
        r.path == args.file,
        r.message@ == "File updated"@,
{
    FileModified { path: args.file, message: owned("File updated") }
}

/// Whether a patch replaces every match.
pub open spec fn replaces_all(args: &PatchFileArgs) -> bool {
    match args.replace_all {
        Some(b) => b,
        None => false,
    }
}

/// `eval code=<script>`, the script replacing the first match, or every match where asked.
pub fn patch_file_args(args: &PatchFileArgs) -> (r: Vec<String>)
    ensures
        views(r@) == seq![
            "eval"@,
            "code="@ + patch_script(
                js_escape(patch_payload(args.file@, args.find@, args.replace@)),
                patch_method(replaces_all(args)),
            ),
        ],
{
    let all = match args.replace_all {
        Some(b) => b,
        None => false,
    };
    let js = eval_patch_js(args.file.as_str(), args.find.as_str(), args.replace.as_str(), all);
    with_param("eval", "code=", js.as_str())
}

/// The patch that was applied: the count of replacements is 1 for the first match only, and 0
/// where every match was replaced (the number of those is not known).
pub fn patch_file_result(args: PatchFileArgs) -> (r: PatchResult)
    ensures
        r.path == args.file,
        r.replacements == (if replaces_all(&args) {
            0usize
        } else {
            1usize
        }),
        r.message@ == "Patch applied"@,
{
    let all = match args.replace_all {
        Some(b) => b,
        None => false,
    };
    PatchResult {
        path: args.file,
        replacements: if all {
            0
        } else {
            1
        },
        message: owned("Patch applied"),
    }
}

/// `eval code=<script>`, the script replacing one line after checking it.
pub fn replace_line_args(args: &ReplaceLineArgs) -> (r: Vec<String>)
    ensures
        views(r@) == seq![
            "eval"@,
            "code="@ + replace_line_script(
                js_escape(replace_line_payload(args.file@, args.line, args.expected@, args.replace@)),
            ),
        ],
{
    let js = eval_replace_line_js(
        args.file.as_str(),
        args.line,
        args.expected.as_str(),
        args.replace.as_str(),
    );
    with_param("eval", "code=", js.as_str())
}

/// The line that was replaced.
pub fn replace_line_result(args: ReplaceLineArgs) -> (r: FileModified)
    ensures
        r.path == args.file,
        r.message@ == "Line "@ + decimal(args.line as nat) + " replaced"@,
{
    let n = u64_to_string(args.line as u64);
    FileModified { path: args.file, message: concat3("Line ", n.as_str(), " replaced") }
}

/// `move file=<file> to=<to>`.
pub fn move_file_args(args: &MoveFileArgs) -> (r: Vec<String>)
    ensures
        views(r@) == seq!["move"@, "file="@ + args.file@, "to="@ + args.to@],
{
    with_params2("move", "file=", args.file.as_str(), "to=", args.to.as_str())
}

/// The file at its new place.
pub fn move_file_result(args: MoveFileArgs) -> (r: FileModified)
    ensures
        r.path == args.to,
        r.message@ == "File moved from '"@ + args.file@ + "'. Wikilinks updated."@,
{
    let message = concat3("File moved from '", args.file.as_str(), "'. Wikilinks updated.");
    FileModified { path: args.to, message }
}

/// `rename file=<file> to=<to>`.
pub fn rename_file_args(args: &RenameFileArgs) -> (r: Vec<String>)
    ensures
        views(r@) == seq!["rename"@, "file="@ + args.file@, "to="@ + args.to@],
{
    with_params2("rename", "file=", args.file.as_str(), "to=", args.to.as_str())
}

/// The file under its new name.
pub fn rename_file_result(args: RenameFileArgs) -> (r: FileModified)
    ensures
        r.path == args.to,
        r.message@ == "File renamed from '"@ + args.file@ + "'"@,
{
    let message = concat3("File renamed from '", args.file.as_str(), "'");
    FileModified { path: args.to, message }
}

/// `delete file=<file>`.
pub fn delete_file_args(args: &FilePathArg) -> (r: Vec<String>)
    ensures
        views(r@) == seq!["delete"@, "file="@ + args.file@],
{
    with_param("delete", "file=", args.file.as_str())
}

/// The file that went to the trash.
pub fn delete_file_result(args: &FilePathArg) -> (r: SuccessResult)
    ensures
        r.success,
        r.message@ == "File '"@ + args.file@ + "' moved to trash"@,
{
    SuccessResult { success: true, message: concat3("File '", args.file.as_str(), "' moved to trash") }
}

// ---------------------------------------------------------------------------
// Search
// ---------------------------------------------------------------------------

/// `search query=<query>`.
pub fn search_args(args: &SearchArgs) -> (r: Vec<String>)
    ensures
        views(r@) == seq!["search"@, "query="@ + args.query@],
{
    with_param("search", "query=", args.query.as_str())
}

/// `search:context query=<query>`.
pub fn search_context_args(args: &SearchArgs) -> (r: Vec<String>)
    ensures
        views(r@) == seq!["search:context"@, "query="@ + args.query@],
{
    with_param("search:context", "query=", args.query.as_str())
}

/// The results of a search: the structured results where the document holds them
/// (`parsed`), else one result without matches for each file name it lists.
pub fn parse_as_search_results(parsed: Option<Vec<SearchFileResult>>, val: &Json) -> (r: Vec<
    SearchFileResult,
>)
    ensures
        match parsed {
            Some(v) => r == v,
            None => views_of_files(r@) == array_strings(val@) && forall|i: int|
                0 <= i < r.len() ==> (#[trigger] r@[i]).matches.len() == 0,
        },
{
    match parsed {
        Some(v) => v,
        None => {
            let files = parse_json_array_as_strings(val);
            let mut out: Vec<SearchFileResult> = Vec::new();
            let mut i: usize = 0;
            while i < files.len()
                invariant
                    i <= files.len(),
                    views_of_files(out@) == views(files@).take(i as int),
                    forall|k: int| 0 <= k < out.len() ==> (#[trigger] out@[k]).matches.len() == 0,
                decreases files.len() - i,
            {
                let ghost before = out@;
                let f = files[i].clone();
                assert(f@ == files@[i as int]@);
                out.push(SearchFileResult { file: f, matches: Vec::new() });
                assert(views_of_files(out@) =~= views_of_files(before).push(files@[i as int]@));
                assert(views(files@).take(i + 1) =~= views(files@).take(i as int).push(files@[i as int]@));
                i = i + 1;
            }
            assert(views(files@).take(files.len() as int) =~= views(files@));
            out
        },
    }
}

/// The file names of search results.
pub open spec fn views_of_files(v: Seq<SearchFileResult>) -> Seq<Seq<char>> {
    v.map_values(|r: SearchFileResult| r.file@)
}

/// The results with the query and their number.
pub fn search_results(query: String, results: Vec<SearchFileResult>) -> (r: SearchResults)
    ensures
        r.query == query,
        r.results == results,
        r.total_matches == results.len(),
{
    let total_matches = results.len();
    SearchResults { query, results, total_matches }
}

// ---------------------------------------------------------------------------
// Links
// ---------------------------------------------------------------------------

/// `links file=<file>`.
pub fn get_links_args(args: &FilePathArg) -> (r: Vec<String>)
    ensures
        views(r@) == seq!["links"@, "file="@ + args.file@],
{
    with_param("links", "file=", args.file.as_str())
}

/// `backlinks file=<file>`.
pub fn get_backlinks_args(args: &FilePathArg) -> (r: Vec<String>)
    ensures
        views(r@) == seq!["backlinks"@, "file="@ + args.file@],
{
    with_param("backlinks", "file=", args.file.as_str())
}

/// The targets of links.
pub open spec fn link_targets(v: Seq<LinkInfo>) -> Seq<Seq<char>> {
    v.map_values(|l: LinkInfo| l.target@)
}

/// The links: the structured ones where the document holds them (`parsed`), else one link
/// without display text for each target it lists.
pub fn parse_as_links(parsed: Option<Vec<LinkInfo>>, val: &Json) -> (r: Vec<LinkInfo>)
    ensures
        match parsed {
            Some(v) => r == v,
            None => link_targets(r@) == array_strings(val@) && forall|i: int|
                0 <= i < r.len() ==> (#[trigger] r@[i]).display_text is None,
        },
{
    match parsed {
        Some(v) => v,
        None => {
            let targets = parse_json_array_as_strings(val);
            let mut out: Vec<LinkInfo> = Vec::new();
            let mut i: usize = 0;
            while i < targets.len()
                invariant
                    i <= targets.len(),
                    link_targets(out@) == views(targets@).take(i as int),
                    forall|k: int| 0 <= k < out.len() ==> (#[trigger] out@[k]).display_text is None,
                decreases targets.len() - i,
            {
                let ghost before = out@;
                let t = targets[i].clone();
                assert(t@ == targets@[i as int]@);
                out.push(LinkInfo { target: t, display_text: None });
                assert(link_targets(out@) =~= link_targets(before).push(targets@[i as int]@));
                assert(views(targets@).take(i + 1) =~= views(targets@).take(i as int).push(targets@[i as int]@));
                i = i + 1;
            }
            assert(views(targets@).take(targets.len() as int) =~= views(targets@));
            out
        },
    }
}

/// The outgoing links of a file.
pub fn link_list(file: String, links: Vec<LinkInfo>) -> (r: LinkList)
    ensures
        r.file == file,
        r.links == links,
        r.count == links.len(),
{
    let count = links.len();
    LinkList { file, links, count }
}

/// The incoming links of a file.
pub fn backlink_list(file: String, backlinks: Vec<LinkInfo>) -> (r: BacklinkList)
    ensures
        r.file == file,
        r.backlinks == backlinks,
        r.count == backlinks.len(),
{
    let count = backlinks.len();
    BacklinkList { file, backlinks, count }
}

/// `unresolved`.
pub fn get_unresolved_links_args() -> (r: Vec<String>)
    ensures
        views(r@) == seq!["unresolved"@],
{
    bare("unresolved")
}

/// `orphans`.
pub fn get_orphans_args() -> (r: Vec<String>)
    ensures
        views(r@) == seq!["orphans"@],
{
    bare("orphans")
}

/// `deadends`.
pub fn get_deadends_args() -> (r: Vec<String>)
    ensures
        views(r@) == seq!["deadends"@],
{
    bare("deadends")
}

/// The paths that the command listed.
pub fn file_path_list(result: &Json) -> (r: FilePathList)
    ensures
        views(r.files@) == array_strings(result@),
        r.count == r.files.len(),
{
    let files = parse_json_array_as_strings(result);
    let count = files.len();
    FilePathList { files, count }
}

// ---------------------------------------------------------------------------
// Properties and aliases
// ---------------------------------------------------------------------------

/// `properties file=<file>`.
pub fn get_properties_args(args: &FilePathArg) -> (r: Vec<String>)
    ensures
        views(r@) == seq!["properties"@, "file="@ + args.file@],
{
    with_param("properties", "file=", args.file.as_str())
}

/// The names and values of properties.
pub open spec fn property_views(v: Seq<PropertyValue>) -> Seq<(Seq<char>, Seq<char>)> {
    v.map_values(|p: PropertyValue| (p.name@, p.value@))
}

/// The properties: for an object, one per member with its value written as JSON; else the
/// list the document holds (`parsed`), or none.
pub fn properties_from(parsed: Option<Vec<PropertyValue>>, val: &Json) -> (r: Vec<PropertyValue>)
    ensures
        match json_object_entries_of(val@) {
            Some(es) => property_views(r@) == es,
            None => match parsed {
                Some(v) => r == v,
                None => r.len() == 0,
            },
        },
{
    match json_object_entries(val.as_str()) {
        Some(entries) => {
            let mut out: Vec<PropertyValue> = Vec::new();
            let mut i: usize = 0;
            while i < entries.len()
                invariant
                    i <= entries.len(),
                    property_views(out@) == pair_views(entries@).take(i as int),
                decreases entries.len() - i,
            {
                let ghost before = out@;
                let name = entries[i].0.clone();
                let value = entries[i].1.clone();
                out.push(PropertyValue { name, value });
                assert(property_views(out@) =~= property_views(before).push(
                    (entries@[i as int].0@, entries@[i as int].1@),
                ));
                assert(pair_views(entries@).take(i + 1) =~= pair_views(entries@).take(i as int).push(
                    (entries@[i as int].0@, entries@[i as int].1@),
                ));
                i = i + 1;
            }
            assert(pair_views(entries@).take(entries.len() as int) =~= pair_views(entries@));
            out
        },
        None => match parsed {
            Some(v) => v,
            None => Vec::new(),
        },
    }
}

/// `property:set file=<file> name=<name> value=<value>`.
pub fn set_property_args(args: &SetPropertyArgs) -> (r: Vec<String>)
    ensures
        views(r@) == seq![
            "property:set"@,
            "file="@ + args.file@,
            "name="@ + args.name@,
            "value="@ + args.value@,
        ],
{
    with_params3(
        "property:set",
        "file=",
        args.file.as_str(),
        "name=",
        args.name.as_str(),
        "value=",
        args.value.as_str(),
    )
}

/// The property that was set.
pub fn set_property_result(args: &SetPropertyArgs) -> (r: SuccessResult)
    ensures
        r.success,
        r.message@ == "Property '"@ + args.name@ + "' set on '"@ + args.file@ + "'"@,
{
    let message = concat5("Property '", args.name.as_str(), "' set on '", args.file.as_str(), "'");
    SuccessResult { success: true, message }
}

/// `property:remove file=<file> name=<name>`.
pub fn remove_property_args(args: &RemovePropertyArgs) -> (r: Vec<String>)
    ensures
        views(r@) == seq!["property:remove"@, "file="@ + args.file@, "name="@ + args.name@],
{
    with_params2("property:remove", "file=", args.file.as_str(), "name=", args.name.as_str())
}

/// The property that was removed.
pub fn remove_property_result(args: &RemovePropertyArgs) -> (r: SuccessResult)
    ensures
        r.success,
        r.message@ == "Property '"@ + args.name@ + "' removed from '"@ + args.file@ + "'"@,
{
    let message = concat5(
        "Property '",
        args.name.as_str(),
        "' removed from '",
        args.file.as_str(),
        "'",
    );
    SuccessResult { success: true, message }
}

/// `aliases file=<file>`.
pub fn get_aliases_args(args: &FilePathArg) -> (r: Vec<String>)
    ensures
        views(r@) == seq!["aliases"@, "file="@ + args.file@],
{
    with_param("aliases", "file=", args.file.as_str())
}

/// The aliases that the command listed.
pub fn alias_list(file: String, result: &Json) -> (r: AliasList)
    ensures
        r.file == file,
        views(r.aliases@) == array_strings(result@),
{
    AliasList { file, aliases: parse_json_array_as_strings(result) }
}

// ---------------------------------------------------------------------------
// Tags
// ---------------------------------------------------------------------------

/// `tags`.
pub fn list_tags_args() -> (r: Vec<String>)
    ensures
        views(r@) == seq!["tags"@],
{
    bare("tags")
}

/// The names of tag counts.
pub open spec fn tag_names(v: Seq<TagCount>) -> Seq<Seq<char>> {
    v.map_values(|t: TagCount| t.tag@)
}

/// The tags: the counted ones where the document holds them (`parsed`), else each tag it
/// lists with a count of zero.
pub fn tag_counts(parsed: Option<Vec<TagCount>>, val: &Json) -> (r: Vec<TagCount>)
    ensures
        match parsed {
            Some(v) => r == v,
            None => tag_names(r@) == array_strings(val@) && forall|i: int|
                0 <= i < r.len() ==> (#[trigger] r@[i]).count == 0,
        },
{
    match parsed {
        Some(v) => v,
        None => {
            let tags = parse_json_array_as_strings(val);
            let mut out: Vec<TagCount> = Vec::new();
            let mut i: usize = 0;
            while i < tags.len()
                invariant
                    i <= tags.len(),
                    tag_names(out@) == views(tags@).take(i as int),
                    forall|k: int| 0 <= k < out.len() ==> (#[trigger] out@[k]).count == 0,
                decreases tags.len() - i,
            {
                let ghost before = out@;
                let t = tags[i].clone();
                out.push(TagCount { tag: t, count: 0 });
                assert(tag_names(out@) =~= tag_names(before).push(tags@[i as int]@));
                assert(views(tags@).take(i + 1) =~= views(tags@).take(i as int).push(tags@[i as int]@));
                i = i + 1;
            }
            assert(views(tags@).take(tags.len() as int) =~= views(tags@));
            out
        },
    }
}

/// The tags with their number.
pub fn tag_list(tags: Vec<TagCount>) -> (r: TagList)
    ensures
        r.tags == tags,
        r.total == tags.len(),
{
    let total = tags.len();
    TagList { tags, total }
}

/// `tag tag=<tag>`.
pub fn files_by_tag_args(args: &TagArg) -> (r: Vec<String>)
    ensures
        views(r@) == seq!["tag"@, "tag="@ + args.tag@],
{
    with_param("tag", "tag=", args.tag.as_str())
}

/// The files that carry the tag.
pub fn tag_files(tag: String, result: &Json) -> (r: TagFiles)
    ensures
        r.tag == tag,
        views(r.files@) == array_strings(result@),
        r.count == r.files.len(),
{
    let files = parse_json_array_as_strings(result);
    let count = files.len();
    TagFiles { tag, files, count }
}

/// `tags:rename old=<old> new=<new>`.
pub fn rename_tag_args(args: &RenameTagArgs) -> (r: Vec<String>)
    ensures
        views(r@) == seq!["tags:rename"@, "old="@ + args.old@, "new="@ + args.new@],
{
    with_params2("tags:rename", "old=", args.old.as_str(), "new=", args.new.as_str())
}

/// The tag that was renamed.
pub fn rename_tag_result(args: &RenameTagArgs) -> (r: SuccessResult)
    ensures
        r.success,
        r.message@ == "Tag '"@ + args.old@ + "' renamed to '"@ + args.new@ + "' vault-wide"@,
{
    let message = concat5(
        "Tag '",
        args.old.as_str(),
        "' renamed to '",
        args.new.as_str(),
        "' vault-wide",
    );
    SuccessResult { success: true, message }
}

// ---------------------------------------------------------------------------
// Daily notes
// ---------------------------------------------------------------------------

/// `daily`.
pub fn daily_open_args() -> (r: Vec<String>)
    ensures
        views(r@) == seq!["daily"@],
{
    bare("daily")
}

/// The value of the first member named `key`.
pub open spec fn member(es: Seq<(Seq<char>, Seq<char>)>, key: Seq<char>) -> Option<Seq<char>>
    decreases es.len(),
{
    if es.len() == 0 {
        None
    } else if es[0].0 == key {
        Some(es[0].1)
    } else {
        member(es.drop_first(), key)
    }
}

fn find_member(es: &Vec<(String, String)>, key: &str) -> (r: Option<String>)
    ensures
        opt_view(r) == member(pair_views(es@), key@),
{
    let mut i: usize = 0;
    assert(pair_views(es@).skip(0) =~= pair_views(es@));
    while i < es.len()
        invariant
            i <= es.len(),
            member(pair_views(es@), key@) == member(pair_views(es@).skip(i as int), key@),
        decreases es.len() - i,
    {
        let ghost rest = pair_views(es@).skip(i as int);
        assert(rest[0] == (es@[i as int].0@, es@[i as int].1@));
        if str_eq(es[i].0.as_str(), key) {
            return Some(es[i].1.clone());
        }
        assert(rest.drop_first() =~= pair_views(es@).skip(i + 1));
        i = i + 1;
    }
    assert(pair_views(es@).skip(i as int) =~= Seq::<(Seq<char>, Seq<char>)>::empty());
    None
}

/// Where the daily note is: the document where it is a string, else its `path` member
/// where that is a string, else `daily note`.
pub open spec fn daily_note_path_of(j: Seq<char>) -> Seq<char> {
    match json_string_of(j) {
        Some(s) => s,
        None => match json_object_entries_of(j) {
            Some(es) => match member(es, "path"@) {
                Some(t) => match json_string_of(t) {
                    Some(s) => s,
                    None => "daily note"@,
                },
                None => "daily note"@,
            },
            None => "daily note"@,
        },
    }
}

/// The daily note that was opened.
pub fn daily_open_result(result: &Json) -> (r: DailyNoteResult)
    ensures
        r.path@ == daily_note_path_of(result@),
        r.message@ == "Daily note opened"@,
{
    let path = match json_string(result.as_str()) {
        Some(s) => s,
        None => match json_object_entries(result.as_str()) {
            Some(entries) => match find_member(&entries, "path") {
                Some(t) => match json_string(t.as_str()) {
                    Some(s) => s,
                    None => owned("daily note"),
                },
                None => owned("daily note"),
            },
            None => owned("daily note"),
        },
    };
    DailyNoteResult { path, message: owned("Daily note opened") }
}

/// `daily:read` (its output is taken as text).
pub fn daily_read_args() -> (r: Vec<String>)
    ensures
        views(r@) == seq!["daily:read"@],
{
    bare("daily:read")
}

/// `daily:path` (its output is taken as text).
pub fn daily_path_args() -> (r: Vec<String>)
    ensures
        views(r@) == seq!["daily:path"@],
{
    bare("daily:path")
}

/// The daily note: its path is the trimmed output of `daily:path`, or `daily note` where
/// that failed.
pub fn daily_read_result(content: String, path: &Result<String, CliError>) -> (r: FileContent)
    ensures
        r.content == content,
        r.path@ == (match path {
            Ok(p) => trim(p@),
            Err(_) => "daily note"@,
        }),
{
    let path = match path {
        Ok(p) => trim_str(p.as_str()),
        Err(_) => owned("daily note"),
    };
    FileContent { path, content }
}

/// `daily:append content=<content>`.
pub fn daily_append_args(args: &DailyContentArgs) -> (r: Vec<String>)
    ensures
        views(r@) == seq!["daily:append"@, "content="@ + args.content@],
{
    with_param("daily:append", "content=", args.content.as_str())
}

/// Content was appended to the daily note.
pub fn daily_append_result() -> (r: DailyNoteResult)
    ensures
        r.path@ == "today's daily note"@,
        r.message@ == "Content appended to daily note"@,
{
    DailyNoteResult {
        path: owned("today's daily note"),
        message: owned("Content appended to daily note"),
    }
}

/// `daily:prepend content=<content>`.
pub fn daily_prepend_args(args: &DailyContentArgs) -> (r: Vec<String>)
    ensures
        views(r@) == seq!["daily:prepend"@, "content="@ + args.content@],
{
    with_param("daily:prepend", "content=", args.content.as_str())
}

/// Content was prepended to the daily note.
pub fn daily_prepend_result() -> (r: DailyNoteResult)
    ensures
        r.path@ == "today's daily note"@,
        r.message@ == "Content prepended to daily note"@,
{
    DailyNoteResult {
        path: owned("today's daily note"),
        message: owned("Content prepended to daily note"),
    }
}

// ---------------------------------------------------------------------------
// Outline, tasks, word count, templates, commands
// ---------------------------------------------------------------------------

/// `outline file=<file>`.
pub fn get_outline_args(args: &FilePathArg) -> (r: Vec<String>)
    ensures
        views(r@) == seq!["outline"@, "file="@ + args.file@],
{
    with_param("outline", "file=", args.file.as_str())
}

/// The texts of headings.
pub open spec fn headings_of(v: Seq<OutlineEntry>) -> Seq<Seq<char>> {
    v.map_values(|e: OutlineEntry| e.heading@)
}

/// The headings: the structured ones where the document holds them (`parsed`), else each
/// heading it lists, with level 0 and no line.
pub fn outline_entries(parsed: Option<Vec<OutlineEntry>>, val: &Json) -> (r: Vec<OutlineEntry>)
    ensures
        match parsed {
            Some(v) => r == v,
            None => headings_of(r@) == array_strings(val@) && forall|i: int|
                0 <= i < r.len() ==> (#[trigger] r@[i]).level == 0 && r@[i].line is None,
        },
{
    match parsed {
        Some(v) => v,
        None => {
            let items = parse_json_array_as_strings(val);
            let mut out: Vec<OutlineEntry> = Vec::new();
            let mut i: usize = 0;
            while i < items.len()
                invariant
                    i <= items.len(),
                    headings_of(out@) == views(items@).take(i as int),
                    forall|k: int| 0 <= k < out.len() ==> (#[trigger] out@[k]).level == 0 && out@[k].line is None,
                decreases items.len() - i,
            {
                let ghost before = out@;
                let h = items[i].clone();
                out.push(OutlineEntry { heading: h, level: 0, line: None });
                assert(headings_of(out@) =~= headings_of(before).push(items@[i as int]@));
                assert(views(items@).take(i + 1) =~= views(items@).take(i as int).push(items@[i as int]@));
                i = i + 1;
            }
            assert(views(items@).take(items.len() as int) =~= views(items@));
            out
        },
    }
}

/// The headings of a file.
pub fn outline_result(file: String, headings: Vec<OutlineEntry>) -> (r: OutlineResult)
    ensures
        r.file == file,
        r.headings == headings,
{
    OutlineResult { file, headings }
}

/// `tasks`.
pub fn list_tasks_args() -> (r: Vec<String>)
    ensures
        views(r@) == seq!["tasks"@],
{
    bare("tasks")
}

/// The texts of tasks.
pub open spec fn task_texts(v: Seq<TaskItem>) -> Seq<Seq<char>> {
    v.map_values(|t: TaskItem| t.text@)
}

/// The tasks: the structured ones where the document holds them (`parsed`), else each task
/// it lists, open, with no file and no line.
pub fn task_items(parsed: Option<Vec<TaskItem>>, val: &Json) -> (r: Vec<TaskItem>)
    ensures
        match parsed {
            Some(v) => r == v,
            None => task_texts(r@) == array_strings(val@) && forall|i: int|
                0 <= i < r.len() ==> (#[trigger] r@[i]).file@.len() == 0 && !r@[i].completed
                    && r@[i].line is None,
        },
{
    match parsed {
        Some(v) => v,
        None => {
            let items = parse_json_array_as_strings(val);
            let mut out: Vec<TaskItem> = Vec::new();
            let mut i: usize = 0;
            while i < items.len()
                invariant
                    i <= items.len(),
                    task_texts(out@) == views(items@).take(i as int),
                    forall|k: int| 0 <= k < out.len() ==> (#[trigger] out@[k]).file@.len() == 0
                        && !out@[k].completed && out@[k].line is None,
                decreases items.len() - i,
            {
                let ghost before = out@;
                let t = items[i].clone();
                out.push(TaskItem { text: t, file: String::new(), completed: false, line: None });
                assert(task_texts(out@) =~= task_texts(before).push(items@[i as int]@));
                assert(views(items@).take(i + 1) =~= views(items@).take(i as int).push(items@[i as int]@));
                i = i + 1;
            }
            assert(views(items@).take(items.len() as int) =~= views(items@));
            out
        },
    }
}

/// The tasks with their number.
pub fn vault_task_list(tasks: Vec<TaskItem>) -> (r: VaultTaskList)
    ensures
        r.tasks == tasks,
        r.total == tasks.len(),
{
    let total = tasks.len();
    VaultTaskList { tasks, total }
}

/// `wordcount file=<file>`.
pub fn get_wordcount_args(args: &FilePathArg) -> (r: Vec<String>)
    ensures
        views(r@) == seq!["wordcount"@, "file="@ + args.file@],
{
    with_param("wordcount", "file=", args.file.as_str())
}

/// The first of the words that is a `u64` numeral, as a number.
pub open spec fn first_number(ws: Seq<Seq<char>>) -> Option<u64>
    decreases ws.len(),
{
    if ws.len() == 0 {
        None
    } else {
        match parse_u64(ws[0]) {
            Some(n) => Some(n),
            None => first_number(ws.drop_first()),
        }
    }
}

/// The word count read from a plain listing: the strings it lists joined with spaces, and
/// of their words the first that is a number; 0 where none is.
pub open spec fn listed_word_count(j: Seq<char>) -> u64 {
    match first_number(words(join(array_strings(j), " "@))) {
        Some(n) => n,
        None => 0,
    }
}

/// The counts: the structured ones where the document holds them (`parsed`), else the word
/// count read from the listing, without a character count.
pub fn word_count_result(file: String, parsed: Option<WordCountResult>, val: &Json) -> (r:
    WordCountResult)
    ensures
        match parsed {
            Some(w) => r == w,
            None => r.file == file && r.words == listed_word_count(val@) && r.characters is None,
        },
{
    match parsed {
        Some(w) => w,
        None => {
            let items = parse_json_array_as_strings(val);
            let raw = join_strings(items.as_slice(), " ");
            let chars = chars_of(raw.as_str());
            let ws = words_of(chars.as_slice());
            let ghost all = ws@.map_values(|w: Vec<char>| w@);
            let mut found: Option<u64> = None;
            let mut i: usize = 0;
            assert(all.skip(0) =~= all);
            while i < ws.len() && found.is_none()
                invariant
                    i <= ws.len(),
                    all == ws@.map_values(|w: Vec<char>| w@),
                    first_number(all) == (match found {
                        Some(n) => Some(n),
                        None => first_number(all.skip(i as int)),
                    }),
                decreases ws.len() - i,
            {
                assert(all.skip(i as int)[0] == ws@[i as int]@);
                assert(all.skip(i as int).drop_first() =~= all.skip(i + 1));
                found = parse_u64_chars(ws[i].as_slice());
                i = i + 1;
            }
            proof {
                if found is None {
                    assert(all.skip(i as int) =~= Seq::<Seq<char>>::empty());
                }
            }
            let count = match found {
                Some(n) => n,
                None => 0,
            };
            WordCountResult { file, words: count, characters: None }
        },
    }
}

/// `templates`.
pub fn list_templates_args() -> (r: Vec<String>)
    ensures
        views(r@) == seq!["templates"@],
{
    bare("templates")
}

/// The templates that the command listed.
pub fn template_list(result: &Json) -> (r: TemplateList)
    ensures
        views(r.templates@) == array_strings(result@),
        r.count == r.templates.len(),
{
    let templates = parse_json_array_as_strings(result);
    let count = templates.len();
    TemplateList { templates, count }
}

/// `commands`.
pub fn list_commands_args() -> (r: Vec<String>)
    ensures
        views(r@) == seq!["commands"@],
{
    bare("commands")
}

/// The commands that the command line listed.
pub fn command_list(result: &Json) -> (r: CommandList)
    ensures
        views(r.commands@) == array_strings(result@),
        r.count == r.commands.len(),
{
    let commands = parse_json_array_as_strings(result);
    let count = commands.len();
    CommandList { commands, count }
}

// ---------------------------------------------------------------------------
// The server, its dangerous tools, prompts and resources
// ---------------------------------------------------------------------------

/// The server's settings: how to call the command line, and whether the tools that run
/// arbitrary commands and JavaScript are on (`ENABLE_DANGEROUS_TOOLS=true`).
pub struct ObsidianServer {
    pub cli: ObsidianCli,
    pub dangerous_enabled: bool,
}

impl ObsidianServer {
    /// A server that calls the command line as `cli`, given the value of
    /// `ENABLE_DANGEROUS_TOOLS` (`None` where it is unset or not valid Unicode): the dangerous
    /// tools are on exactly where the variable is `true`.
    pub fn new(cli: ObsidianCli, dangerous_setting: Option<String>) -> (r: ObsidianServer)
        ensures
            r.cli == cli,
            r.dangerous_enabled == (dangerous_setting matches Some(v) && v@ == "true"@),
    {
        let dangerous_enabled = match &dangerous_setting {
            Some(v) => str_eq(v.as_str(), "true"),
            None => false,
        };
        ObsidianServer { cli, dangerous_enabled }
    }

    /// `command id=<id>`, or the refusal where the dangerous tools are off.
    pub fn execute_command_args(&self, args: &CommandArg) -> (r: Result<Vec<String>, String>)
        ensures
            !self.dangerous_enabled ==> (r matches Err(m) && m@
                == "execute_command is disabled. Set ENABLE_DANGEROUS_TOOLS=true to enable."@),
            self.dangerous_enabled ==> (r matches Ok(a) && views(a@) == seq![
                "command"@,
                "id="@ + args.id@,
            ]),
    {
        if !self.dangerous_enabled {
            return Err(owned("execute_command is disabled. Set ENABLE_DANGEROUS_TOOLS=true to enable."));
        }
        Ok(with_param("command", "id=", args.id.as_str()))
    }

    /// `eval code=<code>`, or the refusal where the dangerous tools are off.
    pub fn eval_js_args(&self, args: &EvalArg) -> (r: Result<Vec<String>, String>)
        ensures
            !self.dangerous_enabled ==> (r matches Err(m) && m@
                == "eval_js is disabled. Set ENABLE_DANGEROUS_TOOLS=true to enable."@),
            self.dangerous_enabled ==> (r matches Ok(a) && views(a@) == seq![
                "eval"@,
                "code="@ + args.code@,
            ]),
    {
        if !self.dangerous_enabled {
            return Err(owned("eval_js is disabled. Set ENABLE_DANGEROUS_TOOLS=true to enable."));
        }
        Ok(with_param("eval", "code=", args.code.as_str()))
    }

    /// What the server tells its clients about itself.
    pub open spec fn spec_instructions(&self) -> Seq<char> {
        "Obsidian vault MCP server for vault '"@ + (match self.cli.vault {
            Some(v) => v@,
            None => "(auto)"@,
        }) + "'. Use tools to read, create, search, and manage notes in the vault. Use resources (vault://files, vault://folders, vault://tags) to browse vault structure without side effects. File paths are always relative to vault root (e.g., 'notes/my-note.md'). Obsidian app must be running with CLI enabled (v1.12+). Dangerous tools (eval_js, execute_command) are "@ + (if self.dangerous_enabled {
            "ENABLED"@
        } else {
            "disabled"@
        }) + "."@
    }

    /// What the server tells its clients about itself: the vault, how paths are written,
    /// and whether the dangerous tools are on.
    pub fn instructions(&self) -> (r: String)
        ensures
            r@ == self.spec_instructions(),
    {
        let state = if self.dangerous_enabled {
            "ENABLED"
        } else {
            "disabled"
        };
        concat5(
            "Obsidian vault MCP server for vault '",
            self.cli.vault_name(),
            "'. Use tools to read, create, search, and manage notes in the vault. Use resources (vault://files, vault://folders, vault://tags) to browse vault structure without side effects. File paths are always relative to vault root (e.g., 'notes/my-note.md'). Obsidian app must be running with CLI enabled (v1.12+). Dangerous tools (eval_js, execute_command) are ",
            state,
            ".",
        )
    }
}

/// A command that was run.
pub fn execute_command_result(args: CommandArg) -> (r: CommandResult)
    ensures
        r.command == args.id,
        r.message@ == "Command executed"@,
{
    CommandResult { command: args.id, message: owned("Command executed") }
}

/// What the evaluated JavaScript returned, as compact JSON.
pub fn eval_result(result: &Json) -> (r: EvalResult)
    ensures
        json_canonical_of(result@) == Some(r.result@),
{
    EvalResult { result: result.to_compact() }
}

/// The message of the daily-summary prompt around the content of the daily note.
pub open spec fn daily_summary_text(content: Seq<char>) -> Seq<char> {
    "Here is today's daily note from my Obsidian vault. Please provide a concise summary highlighting key points, decisions, and action items:\n\n"@ + content
}

/// The daily-summary prompt: the daily note's content, or a remark that it could not be read.
pub fn daily_summary_prompt(content: &Result<String, CliError>) -> (r: String)
    ensures
        r@ == daily_summary_text(
            match content {
                Ok(c) => c@,
                Err(_) => "(Could not read daily note -- it may not exist yet)"@,
            },
        ),
{
    match content {
        Ok(c) => concat2("Here is today's daily note from my Obsidian vault. Please provide a concise summary highlighting key points, decisions, and action items:\n\n", c.as_str()),
        Err(_) => concat2("Here is today's daily note from my Obsidian vault. Please provide a concise summary highlighting key points, decisions, and action items:\n\n", "(Could not read daily note -- it may not exist yet)"),
    }
}

/// `search query=<topic>`.
pub fn find_related_args(args: &FindRelatedArgs) -> (r: Vec<String>)
    ensures
        views(r@) == seq!["search"@, "query="@ + args.topic@],
{
    with_param("search", "query=", args.topic.as_str())
}

/// A document, or `[]` where the call failed.
pub open spec fn or_empty(results: Result<Json, CliError>) -> Seq<char> {
    match results {
        Ok(j) => j@,
        Err(_) => json_of_strings(seq![]),
    }
}

fn pretty_or_empty(results: &Result<Json, CliError>) -> (r: String)
    ensures
        r@ == json_pretty_of(or_empty(*results)),
{
    match results {
        Ok(j) => j.to_pretty(),
        Err(_) => Json::empty_array().to_pretty(),
    }
}

/// The message of the related-notes prompt.
pub open spec fn find_related_text(topic: Seq<char>, results: Seq<char>) -> Seq<char> {
    "I searched my Obsidian vault for '"@ + topic + "' and found these results:\n\n"@ + results
        + "\n\nPlease analyze these notes and suggest:\n1. Key connections between them\n2. Potential new notes or links to create\n3. Any knowledge gaps I should fill"@
}

/// The related-notes prompt: the topic, and the search results written with indentation
/// (`[]` where the search failed).
pub fn find_related_prompt(topic: &str, results: &Result<Json, CliError>) -> (r: String)
    ensures
        r@ == find_related_text(topic@, json_pretty_of(or_empty(*results))),
{
    let listing = pretty_or_empty(results);
    let head = concat3("I searched my Obsidian vault for '", topic, "' and found these results:\n\n");
    concat3(head.as_str(), listing.as_str(), "\n\nPlease analyze these notes and suggest:\n1. Key connections between them\n2. Potential new notes or links to create\n3. Any knowledge gaps I should fill")
}

/// `orphans`.
pub fn review_orphans_args() -> (r: Vec<String>)
    ensures
        views(r@) == seq!["orphans"@],
{
    bare("orphans")
}

/// The message of the orphans prompt.
pub open spec fn review_orphans_text(orphans: Seq<char>) -> Seq<char> {
    "These notes in my Obsidian vault have no incoming links (orphans):\n\n"@ + orphans + "\n\nPlease review this list and suggest:\n1. Which notes could be linked from other relevant notes\n2. Which notes might be outdated and candidates for archiving\n3. How to better integrate these into the knowledge graph"@
}

/// The orphans prompt: the notes without incoming links, written with indentation (`[]`
/// where the listing failed).
pub fn review_orphans_prompt(orphans: &Result<Json, CliError>) -> (r: String)
    ensures
        r@ == review_orphans_text(json_pretty_of(or_empty(*orphans))),
{
    let listing = pretty_or_empty(orphans);
    concat3("These notes in my Obsidian vault have no incoming links (orphans):\n\n", listing.as_str(), "\n\nPlease review this list and suggest:\n1. Which notes could be linked from other relevant notes\n2. Which notes might be outdated and candidates for archiving\n3. How to better integrate these into the knowledge graph")
}

/// A resource that the server offers.
pub struct ResourceEntry {
    pub uri: String,
    pub name: String,
    pub description: String,
    pub mime_type: String,
}

fn resource(uri: &str, name: &str, description: &str) -> (r: ResourceEntry)
    ensures
        r.uri@ == uri@,
        r.name@ == name@,
        r.description@ == description@,
        r.mime_type@ == "application/json"@,
{
    ResourceEntry {
        uri: owned(uri),
        name: owned(name),
        description: owned(description),
        mime_type: owned("application/json"),
    }
}

/// The resources: the files, the folders and the tags of the vault, each as JSON.
pub fn resource_catalog() -> (r: Vec<ResourceEntry>)
    ensures
        r.len() == 3,
        r@[0].uri@ == "vault://files"@ && r@[0].name@ == "Vault Files"@ && r@[0].description@
            == "List of all files in the vault with paths"@,
        r@[1].uri@ == "vault://folders"@ && r@[1].name@ == "Folder Structure"@ && r@[1].description@
            == "Folder hierarchy of the vault"@,
        r@[2].uri@ == "vault://tags"@ && r@[2].name@ == "All Tags"@ && r@[2].description@
            == "All tags in the vault with usage counts"@,
        forall|i: int| 0 <= i < 3 ==> (#[trigger] r@[i]).mime_type@ == "application/json"@,
{
    let mut v: Vec<ResourceEntry> = Vec::new();
    v.push(resource("vault://files", "Vault Files", "List of all files in the vault with paths"));
    v.push(resource("vault://folders", "Folder Structure", "Folder hierarchy of the vault"));
    v.push(resource("vault://tags", "All Tags", "All tags in the vault with usage counts"));
    v
}

/// The arguments that read a resource, or nothing for an unknown one.
pub open spec fn resource_command(uri: Seq<char>) -> Option<Seq<char>> {
    if uri == "vault://files"@ {
        Some("files"@)
    } else if uri == "vault://folders"@ {
        Some("folders"@)
    } else if uri == "vault://tags"@ {
        Some("tags"@)
    } else {
        None
    }
}

/// The arguments that read the resource `uri`: `files`, `folders` or `tags`; nothing where
/// the server offers no such resource.
pub fn read_resource_args(uri: &str) -> (r: Option<Vec<String>>)
    ensures
        match resource_command(uri@) {
            Some(c) => r matches Some(a) && views(a@) == seq![c],
            None => r is None,
        },
{
    if str_eq(uri, "vault://files") {
        Some(bare("files"))
    } else if str_eq(uri, "vault://folders") {
        Some(bare("folders"))
    } else if str_eq(uri, "vault://tags") {
        Some(bare("tags"))
    } else {
        None
    }
}

/// The text of a resource: its document written with indentation.
pub fn resource_text(result: &Json) -> (r: String)
    ensures
        r@ == json_pretty_of(result@),
{
    result.to_pretty()
}

// ---------------------------------------------------------------------------
// Laws
// ---------------------------------------------------------------------------

/// A patch replaces every match only where asked to (`replace_all` is `Some(true)`): with
/// `replace_all` unset or false, its script calls `replace` (the first match) and its result
/// reports one replacement; where asked, the script calls `replaceAll` and reports none.
pub proof fn law_patch_first_match_unless_all(args: PatchFileArgs, a: Vec<String>, r: PatchResult)
    requires
        call_ensures(patch_file_args, (&args,), a),
        call_ensures(patch_file_result, (args,), r),
    ensures
        views(a@) == seq![
            "eval"@,
            "code="@ + patch_script(
                js_escape(patch_payload(args.file@, args.find@, args.replace@)),
                if args.replace_all == Some(true) {
                    "replaceAll"@
                } else {
                    "replace"@
                },
            ),
        ],
        r.replacements == (if args.replace_all == Some(true) {
            0usize
        } else {
            1usize
        }),
        r.path == args.file,
{
}

/// Looking a member up finds the first member of that name, wherever it stands.
pub proof fn law_member_finds_first(es: Seq<(Seq<char>, Seq<char>)>, key: Seq<char>, i: int)
    requires
        0 <= i < es.len(),
        es[i].0 == key,
        forall|k: int| 0 <= k < i ==> es[k].0 != key,
    ensures
        member(es, key) == Some(es[i].1),
    decreases i,
{
    if i > 0 {
        assert forall|k: int| 0 <= k < i - 1 implies es.drop_first()[k].0 != key by {
            assert(es.drop_first()[k] == es[k + 1]);
        }
        law_member_finds_first(es.drop_first(), key, i - 1);
    }
}

/// Looking a member up finds nothing exactly where no member has that name.
pub proof fn law_member_absent(es: Seq<(Seq<char>, Seq<char>)>, key: Seq<char>)
    ensures
        (member(es, key) is None) == (forall|k: int| 0 <= k < es.len() ==> es[k].0 != key),
    decreases es.len(),
{
    if es.len() > 0 {
        law_member_absent(es.drop_first(), key);
        if es[0].0 != key {
            assert forall|k: int| 0 <= k < es.len() && (forall|m: int| 0 <= m < es.len() - 1 ==> es.drop_first()[m].0 != key) implies es[k].0 != key by {
                if k > 0 {
                    assert(es.drop_first()[k - 1] == es[k]);
                }
            }
            assert forall|m: int| 0 <= m < es.len() - 1 && (forall|k: int| 0 <= k < es.len() ==> es[k].0 != key) implies es.drop_first()[m].0 != key by {
                assert(es.drop_first()[m] == es[m + 1]);
            }
        }
    }
}

/// A daily note reported as an object (not a bare string) is at the string value of its
/// first `path` member, wherever that member stands among the others.
pub proof fn law_daily_path_from_object(result: &Json, r: DailyNoteResult, es: Seq<(Seq<char>, Seq<char>)>, i: int, p: Seq<char>)
    requires
        call_ensures(daily_open_result, (result,), r),
        json_string_of(result@) is None,
        json_object_entries_of(result@) == Some(es),
        0 <= i < es.len(),
        es[i].0 == "path"@,
        forall|k: int| 0 <= k < i ==> es[k].0 != "path"@,
        json_string_of(es[i].1) == Some(p),
    ensures
        r.path@ == p,
{
    law_member_finds_first(es, "path"@, i);
}

/// The word count read from a listing is that of the first of its words (the strings it
/// lists joined with spaces, split at white space) that is a `u64` numeral, the very first
/// word included; 0 where no word is.
pub proof fn law_word_count_first_numeral(file: String, val: &Json, r: WordCountResult)
    requires
        call_ensures(word_count_result, (file, Option::<WordCountResult>::None, val), r),
    ensures
        ({
            let ws = words(join(array_strings(val@), " "@));
            &&& forall|i: int|
                #![trigger ws[i]]
                0 <= i < ws.len() && parse_u64(ws[i]) is Some && (forall|k: int| 0 <= k < i ==> parse_u64(ws[k]) is None)
                    ==> Some(r.words) == parse_u64(ws[i])
            &&& (forall|k: int| 0 <= k < ws.len() ==> parse_u64(ws[k]) is None) ==> r.words == 0
        }),
{
    let ws = words(join(array_strings(val@), " "@));
    assert forall|i: int|
        #![trigger ws[i]]
        0 <= i < ws.len() && parse_u64(ws[i]) is Some && (forall|k: int| 0 <= k < i ==> parse_u64(ws[k]) is None)
            implies Some(r.words) == parse_u64(ws[i]) by {
        lemma_first_number_at(ws, i);
    }
    lemma_first_number_none(ws);
}

proof fn lemma_first_number_at(ws: Seq<Seq<char>>, i: int)
    requires
        0 <= i < ws.len(),
        parse_u64(ws[i]) is Some,
        forall|k: int| 0 <= k < i ==> parse_u64(ws[k]) is None,
    ensures
        first_number(ws) == parse_u64(ws[i]),
    decreases i,
{
    if i > 0 {
        assert forall|k: int| 0 <= k < i - 1 implies parse_u64(ws.drop_first()[k]) is None by {
            assert(ws.drop_first()[k] == ws[k + 1]);
        }
        lemma_first_number_at(ws.drop_first(), i - 1);
    }
}

proof fn lemma_first_number_none(ws: Seq<Seq<char>>)
    ensures
        (forall|k: int| 0 <= k < ws.len() ==> parse_u64(ws[k]) is None) ==> first_number(ws) is None,
    decreases ws.len(),
{
    if ws.len() > 0 {
        lemma_first_number_none(ws.drop_first());
        if forall|k: int| 0 <= k < ws.len() ==> parse_u64(ws[k]) is None {
            assert forall|m: int| 0 <= m < ws.len() - 1 implies parse_u64(ws.drop_first()[m]) is None by {
                assert(ws.drop_first()[m] == ws[m + 1]);
            }
        }
    }
}

/// Each resource is read by the command it is named after: `vault://<c>` by `c`, for the
/// three resources the server offers, and nothing else is read.
pub proof fn law_resource_read_by_its_name(uri: &str, r: Option<Vec<String>>)
    requires
        call_ensures(read_resource_args, (uri,), r),
    ensures
        r matches Some(a) ==> a.len() == 1 && uri@ == "vault://"@ + a@[0]@,
        r is Some <==> (uri@ == "vault://files"@ || uri@ == "vault://folders"@ || uri@ == "vault://tags"@),
        uri@ == "vault://files"@ ==> (r matches Some(a) && a.len() == 1 && a@[0]@ == "files"@),
        uri@ == "vault://folders"@ ==> (r matches Some(a) && a.len() == 1 && a@[0]@ == "folders"@),
        uri@ == "vault://tags"@ ==> (r matches Some(a) && a.len() == 1 && a@[0]@ == "tags"@),
{
    reveal_strlit("vault://");
    reveal_strlit("vault://files");
    reveal_strlit("vault://folders");
    reveal_strlit("vault://tags");
    reveal_strlit("files");
    reveal_strlit("folders");
    reveal_strlit("tags");
    assert("vault://"@ + "files"@ =~= "vault://files"@);
    assert("vault://"@ + "folders"@ =~= "vault://folders"@);
    assert("vault://"@ + "tags"@ =~= "vault://tags"@);
    assert(resource_command(uri@) is Some ==> r is Some);
    match r {
        Some(a) => {
            assert(resource_command(uri@) is Some);
            assert(views(a@).len() == 1);
            assert(views(a@)[0] == a@[0]@);
        },
        None => {},
    }
}

} // verus!
