//! The analysis of a C# script: the line of its class declaration, and the
//! lines of Unity asset files (scenes, prefabs, assets) that reference the
//! script through the GUID recorded in its `.meta` file.
use crate::paths::{
    file_path_of_uri, joined_path, opt_view, path_join, path_with_extension, uri_file_path,
    with_extension,
};
use crate::pattern::{match_lines, regex_compiles, regex_is_match};
use crate::syntax::{csharp_syntax_nodes, nodes_view, parse_csharp_nodes, SyntaxNode, SyntaxNodeView};
use crate::text::{
    chars_of, ends_with_chars, has_guid_field, has_guid_field_exec, has_suffix, lines_of,
    string_views, text_lines,
};
use crate::yaml::{guid_from_meta_text, guid_of_meta};
use vstd::prelude::*;

verus! {

/// The pattern of a line that attaches a script component:
/// `m_Script: {fileID: <digits>, guid: <hex>, type: 3}`.
pub const SCRIPT_PATTERN: &'static str = "m_Script:\\s*\\{fileID:\\s*\\d+,\\s*guid:\\s*[a-f0-9]+,\\s*type:\\s*3\\}";

/// The file name endings of the Unity files that can reference a script.
pub const SUPPORTED_EXTENSIONS: [&'static str; 3] = [".unity", ".prefab", ".asset"];

/// A line of an asset file that references a script.
pub struct ScriptReference {
    pub file_path: String,
    pub line_number: u32,
}

impl View for ScriptReference {
    type V = (Seq<char>, u32);

    open spec fn view(&self) -> (Seq<char>, u32) {
        (self.file_path@, self.line_number)
    }
}

impl ScriptReference {
    /// A copy of the reference.
    pub fn duplicate(&self) -> (copy: ScriptReference)
        ensures
            copy == *self,
    {
        ScriptReference { file_path: self.file_path.clone(), line_number: self.line_number }
    }
}

/// A copy of a list of references.
pub fn duplicate_references(refs: &Vec<ScriptReference>) -> (copy: Vec<ScriptReference>)
    ensures
        copy@ == refs@,
{
    let mut out: Vec<ScriptReference> = Vec::new();
    let mut i: usize = 0;
    while i < refs.len()
        invariant
            i <= refs.len(),
            out@ == refs@.take(i as int),
        decreases refs.len() - i,
    {
        out.push(refs[i].duplicate());
        assert(refs@.take(i + 1) =~= refs@.take(i as int).push(refs@[i as int]));
        i = i + 1;
    }
    assert(refs@.take(refs.len() as int) =~= refs@);
    out
}

pub open spec fn references_view(refs: Seq<ScriptReference>) -> Seq<(Seq<char>, u32)> {
    refs.map_values(|r: ScriptReference| r@)
}

/// What the analysis of a script found.
pub struct AnalysisResult {
    pub asset_references: Vec<ScriptReference>,
    pub class_line: Option<u32>,
}

/// Where the analysis of a script stands: the `.meta` file at `path` is to
/// be read, the asset files under `dir` are to be searched for references to
/// `guid`, or the analysis is done.
pub enum AnalysisStep {
    ReadMeta { path: String },
    SearchAssets { dir: String, guid: String },
    Done(AnalysisResult),
}

/// An analysis step as values: the path to read, the directory and GUID to
/// search with, or the references and class line found.
pub enum AnalysisStepView {
    ReadMeta(Seq<char>),
    SearchAssets(Seq<char>, Seq<char>),
    Done(Seq<(Seq<char>, u32)>, Option<u32>),
}

impl View for AnalysisStep {
    type V = AnalysisStepView;

    open spec fn view(&self) -> AnalysisStepView {
        match self {
            AnalysisStep::ReadMeta { path } => AnalysisStepView::ReadMeta(path@),
            AnalysisStep::SearchAssets { dir, guid } => AnalysisStepView::SearchAssets(dir@, guid@),
            AnalysisStep::Done(result) => AnalysisStepView::Done(
                references_view(result.asset_references@),
                result.class_line,
            ),
        }
    }
}

/// The first step of the analysis of `content`, the script that `uri` names.
pub open spec fn start_step(content: Seq<char>, uri: Seq<char>) -> AnalysisStepView {
    match meta_path_of(uri) {
        Some(path) => AnalysisStepView::ReadMeta(path),
        None => AnalysisStepView::Done(Seq::empty(), class_line_of(content)),
    }
}

/// The step after the `.meta` file was read (`None` when it could not be),
/// for the assets directory `dir`.
pub open spec fn meta_step(dir: Seq<char>, content: Seq<char>, meta: Option<Seq<char>>) -> AnalysisStepView {
    match (
        match meta {
            Some(m) => guid_of_meta(m),
            None => None,
        }
    ) {
        Some(guid) => AnalysisStepView::SearchAssets(dir, guid),
        None => AnalysisStepView::Done(Seq::empty(), class_line_of(content)),
    }
}

/// A step with the class line left out: what depends on the files only.
pub open spec fn file_part(step: AnalysisStepView) -> AnalysisStepView {
    match step {
        AnalysisStepView::Done(refs, _) => AnalysisStepView::Done(refs, None),
        other => other,
    }
}

pub open spec fn opt_str_view(s: Option<&str>) -> Option<Seq<char>> {
    match s {
        Some(s) => Some(s@),
        None => None,
    }
}

/// A file met under the assets directory: its path, its file name, and its
/// text when it could be read.
pub struct AssetFile {
    pub path: String,
    pub file_name: String,
    pub content: Option<String>,
}

pub type AssetFileView = (Seq<char>, Seq<char>, Option<Seq<char>>);

impl View for AssetFile {
    type V = AssetFileView;

    open spec fn view(&self) -> AssetFileView {
        (self.path@, self.file_name@, opt_view(self.content))
    }
}

pub open spec fn files_view(files: Seq<AssetFile>) -> Seq<AssetFileView> {
    files.map_values(|f: AssetFile| f@)
}

/// The analyzer of the scripts of one Unity project.
pub struct Analyzer {
    assets_dir: String,
}

impl View for Analyzer {
    type V = Seq<char>;

    /// The `Assets` directory of the project.
    closed spec fn view(&self) -> Seq<char> {
        self.assets_dir@
    }
}

pub open spec fn script_pattern() -> Seq<char> {
    SCRIPT_PATTERN@
}

/// A file name ends with one of the supported extensions.
pub open spec fn is_asset_file_name(name: Seq<char>) -> bool {
    has_suffix(name, ".unity"@) || has_suffix(name, ".prefab"@) || has_suffix(name, ".asset"@)
}

/// A line references the script: it matches `SCRIPT_PATTERN` and its
/// `guid:` field is the script's GUID.
pub open spec fn line_refers(line: Seq<char>, guid: Seq<char>) -> bool {
    regex_compiles(script_pattern()) && regex_is_match(script_pattern(), line) && has_guid_field(
        line,
        guid,
    )
}

/// The numbers (0-based, as `u32`) of the lines that reference the script,
/// in order.
pub open spec fn matching_line_numbers(lines: Seq<Seq<char>>, guid: Seq<char>) -> Seq<u32>
    decreases lines.len(),
{
    if lines.len() == 0 {
        Seq::empty()
    } else {
        let before = matching_line_numbers(lines.drop_last(), guid);
        if line_refers(lines.last(), guid) {
            before.push((lines.len() - 1) as u32)
        } else {
            before
        }
    }
}

/// The references that one file holds: none unless it is an asset file whose
/// text was read.
pub open spec fn file_references(file: AssetFileView, guid: Seq<char>) -> Seq<(Seq<char>, u32)> {
    match file.2 {
        Some(content) => if is_asset_file_name(file.1) {
            matching_line_numbers(text_lines(content), guid).map_values(|n: u32| (file.0, n))
        } else {
            Seq::empty()
        },
        None => Seq::empty(),
    }
}

/// The references that a list of files holds, file after file.
pub open spec fn asset_references(files: Seq<AssetFileView>, guid: Seq<char>) -> Seq<(Seq<char>, u32)>
    decreases files.len(),
{
    if files.len() == 0 {
        Seq::empty()
    } else {
        asset_references(files.drop_last(), guid) + file_references(files.last(), guid)
    }
}

/// The row of the first node, in document order, that is a class
/// declaration.
pub open spec fn first_class_row(nodes: Seq<SyntaxNodeView>) -> Option<usize>
    decreases nodes.len(),
{
    if nodes.len() == 0 {
        None
    } else if nodes[0].0 == "class_declaration"@ {
        Some(nodes[0].1)
    } else {
        first_class_row(nodes.drop_first())
    }
}

/// The line of the first class declaration of a C# source.
pub open spec fn class_line_of(source: Seq<char>) -> Option<u32> {
    match csharp_syntax_nodes(source) {
        Some(nodes) => match first_class_row(nodes) {
            Some(row) => Some(row as u32),
            None => None,
        },
        None => None,
    }
}

/// The `.meta` file of the script that a URI names.
pub open spec fn meta_path_of(uri: Seq<char>) -> Option<Seq<char>> {
    match uri_file_path(uri) {
        Some(path) => Some(path_with_extension(path, "cs.meta"@)),
        None => None,
    }
}

/// The `Assets` directory of the project whose root a URI names.
pub open spec fn assets_dir_of(workspace_root: Seq<char>) -> Option<Seq<char>> {
    match uri_file_path(workspace_root) {
        Some(path) => Some(joined_path(path, "Assets"@)),
        None => None,
    }
}

/// Whether a file name ends with one of `SUPPORTED_EXTENSIONS`.
pub fn is_asset_file(file_name: &str) -> (is_asset: bool)
    ensures
        is_asset == is_asset_file_name(file_name@),
{
    let name = chars_of(file_name);
    let mut i: usize = 0;
    let ghost exts = seq![".unity"@, ".prefab"@, ".asset"@];
    while i < 3
        invariant
            i <= 3,
            name@ == file_name@,
            exts == seq![".unity"@, ".prefab"@, ".asset"@],
            forall|j: int| 0 <= j < i ==> !has_suffix(name@, #[trigger] exts[j]),
        decreases 3 - i,
    {
        let ext = chars_of(SUPPORTED_EXTENSIONS[i]);
        proof {
            assert(SUPPORTED_EXTENSIONS@[i as int]@ == exts[i as int]);
        }
        if ends_with_chars(&name, &ext) {
            return true;
        }
        i = i + 1;
    }
    assert(!has_suffix(name@, exts[0]) && !has_suffix(name@, exts[1]) && !has_suffix(name@, exts[2]));
    false
}

/// The numbers (0-based, as `u32`) of the lines whose pattern flag is set
/// and whose `guid:` field is the GUID, in order.
pub open spec fn selected_lines(lines: Seq<Seq<char>>, pattern_matches: Seq<bool>, guid: Seq<char>) -> Seq<
    u32,
>
    decreases lines.len(),
{
    if lines.len() == 0 {
        Seq::empty()
    } else {
        let before = selected_lines(lines.drop_last(), pattern_matches, guid);
        if pattern_matches[lines.len() - 1] && has_guid_field(lines.last(), guid) {
            before.push((lines.len() - 1) as u32)
        } else {
            before
        }
    }
}

proof fn lemma_selected_lines_are_matching(lines: Seq<Seq<char>>, pattern_matches: Seq<bool>, guid: Seq<char>)
    requires
        regex_compiles(script_pattern()),
        pattern_matches.len() >= lines.len(),
        forall|k: int|
            0 <= k < lines.len() ==> pattern_matches[k] == regex_is_match(
                script_pattern(),
                #[trigger] lines[k],
            ),
    ensures
        selected_lines(lines, pattern_matches, guid) == matching_line_numbers(lines, guid),
    decreases lines.len(),
{
    if lines.len() > 0 {
        let shorter = lines.drop_last();
        assert forall|k: int| 0 <= k < shorter.len() implies pattern_matches[k] == regex_is_match(
            script_pattern(),
            #[trigger] shorter[k],
        ) by {
            assert(shorter[k] == lines[k]);
        }
        lemma_selected_lines_are_matching(shorter, pattern_matches, guid);
        assert(lines.last() == lines[lines.len() - 1]);
    }
}

proof fn lemma_no_matches_without_pattern(lines: Seq<Seq<char>>, guid: Seq<char>)
    requires
        !regex_compiles(script_pattern()),
    ensures
        matching_line_numbers(lines, guid) == Seq::<u32>::empty(),
    decreases lines.len(),
{
    if lines.len() > 0 {
        lemma_no_matches_without_pattern(lines.drop_last(), guid);
    }
}

/// The numbers of the lines whose pattern flag is set and whose `guid:`
/// field is the GUID.
pub fn select_lines(lines: &Vec<String>, pattern_matches: &Vec<bool>, script_guid: &str) -> (numbers:
    Vec<u32>)
    requires
        pattern_matches.len() == lines.len(),
    ensures
        numbers@ == selected_lines(string_views(lines@), pattern_matches@, script_guid@),
{
    let guid = chars_of(script_guid);
    let ghost views = string_views(lines@);
    let mut out: Vec<u32> = Vec::new();
    let mut i: usize = 0;
    assert(views.take(0) =~= Seq::<Seq<char>>::empty());
    while i < lines.len()
        invariant
            i <= lines.len(),
            pattern_matches.len() == lines.len(),
            views == string_views(lines@),
            guid@ == script_guid@,
            out@ == selected_lines(views.take(i as int), pattern_matches@, script_guid@),
        decreases lines.len() - i,
    {
        let selected = pattern_matches[i] && has_guid_field_exec(&chars_of(lines[i].as_str()), &guid);
        proof {
            let next = views.take(i + 1);
            assert(next.drop_last() =~= views.take(i as int));
            assert(next.last() == lines@[i as int]@);
        }
        if selected {
            out.push(i as u32);
        }
        i = i + 1;
    }
    assert(views.take(lines.len() as int) =~= views);
    out
}

/// The numbers of the lines that reference the script with the given GUID.
pub fn matching_lines(lines: &Vec<String>, script_guid: &str) -> (numbers: Vec<u32>)
    ensures
        numbers@ == matching_line_numbers(string_views(lines@), script_guid@),
{
    let ghost views = string_views(lines@);
    match match_lines(SCRIPT_PATTERN, lines) {
        Some(pattern_matches) => {
            proof {
                assert forall|k: int| 0 <= k < views.len() implies pattern_matches@[k]
                    == regex_is_match(script_pattern(), #[trigger] views[k]) by {
                    assert(views[k] == lines@[k]@);
                }
                lemma_selected_lines_are_matching(views, pattern_matches@, script_guid@);
            }
            select_lines(lines, &pattern_matches, script_guid)
        },
        None => {
            proof {
                lemma_no_matches_without_pattern(views, script_guid@);
            }
            Vec::new()
        },
    }
}

impl Analyzer {
    /// The analyzer of the project whose root directory the URI names.
    pub fn new(workspace_root: &str) -> (analyzer: Self)
        requires
            uri_file_path(workspace_root@) is Some,
        ensures
            assets_dir_of(workspace_root@) == Some(analyzer@),
    {
        match file_path_of_uri(workspace_root) {
            Some(root) => Analyzer { assets_dir: path_join(root.as_str(), "Assets") },
            None => Analyzer { assets_dir: String::new() },
        }
    }

    /// The analyzer of the project whose root the URI names, or `None` when
    /// the URI names no local directory.
    pub fn try_new(workspace_root: &str) -> (analyzer: Option<Self>)
        ensures
            match analyzer {
                Some(a) => assets_dir_of(workspace_root@) == Some(a@),
                None => assets_dir_of(workspace_root@) is None,
            },
    {
        match file_path_of_uri(workspace_root) {
            Some(_) => Some(Self::new(workspace_root)),
            None => None,
        }
    }

    /// The `Assets` directory, under which the asset files are searched.
    pub fn assets_dir(&self) -> (dir: &str)
        ensures
            dir@ == self@,
    {
        self.assets_dir.as_str()
    }

    /// Starts the analysis of the script that `uri` names: its `.meta` file
    /// is to be read, or, when the URI names no local file, the analysis is
    /// done with no asset references.
    pub fn analyze_script(&self, content: &str, uri: &str) -> (step: AnalysisStep)
        ensures
            step@ == start_step(content@, uri@),
    {
        match Self::meta_path(uri) {
            Some(path) => AnalysisStep::ReadMeta { path },
            None => {
                let result = self.complete_analysis(content, Vec::new());
                assert(references_view(result.asset_references@) =~= Seq::<(Seq<char>, u32)>::empty());
                AnalysisStep::Done(result)
            },
        }
    }

    /// Goes on once the `.meta` file was read (`None` when it could not be):
    /// with a GUID in it the asset files are to be searched, without one the
    /// analysis is done with no asset references.
    pub fn after_meta(&self, content: &str, meta_content: Option<&str>) -> (step: AnalysisStep)
        ensures
            step@ == meta_step(self@, content@, opt_str_view(meta_content)),
    {
        let guid = match meta_content {
            Some(m) => Self::extract_guid_from_meta(m),
            None => None,
        };
        match guid {
            Some(guid) => AnalysisStep::SearchAssets { dir: self.assets_dir.clone(), guid },
            None => {
                let result = self.complete_analysis(content, Vec::new());
                assert(references_view(result.asset_references@) =~= Seq::<(Seq<char>, u32)>::empty());
                AnalysisStep::Done(result)
            },
        }
    }

    /// The analysis of a script once its asset references are known: they
    /// come with the line of its class declaration.
    pub fn complete_analysis(&self, content: &str, asset_references: Vec<ScriptReference>) -> (result:
        AnalysisResult)
        ensures
            result.asset_references@ == asset_references@,
            result.class_line == class_line_of(content@),
    {
        AnalysisResult { asset_references, class_line: Self::get_class_line(content) }
    }

    /// The path of the `.meta` file of the script that a URI names: the file
    /// path with the extension `cs.meta`.
    pub fn meta_path(uri: &str) -> (path: Option<String>)
        ensures
            opt_view(path) == meta_path_of(uri@),
    {
        match file_path_of_uri(uri) {
            Some(p) => {
                proof {
                    reveal_strlit("cs.meta");
                }
                Some(with_extension(p.as_str(), "cs.meta"))
            },
            None => None,
        }
    }

    /// The line of the first class declaration in a C# source.
    pub fn get_class_line(content: &str) -> (line: Option<u32>)
        ensures
            line == class_line_of(content@),
    {
        match parse_csharp_nodes(content) {
            Some(nodes) => match Self::find_class_node(&nodes) {
                Some(node) => Some(node.row as u32),
                None => None,
            },
            None => None,
        }
    }

    /// The first node, in document order, that is a class declaration.
    pub fn find_class_node(nodes: &Vec<SyntaxNode>) -> (found: Option<&SyntaxNode>)
        ensures
            match found {
                Some(n) => first_class_row(nodes_view(nodes@)) == Some(n.row) && n.kind@
                    == "class_declaration"@,
                None => first_class_row(nodes_view(nodes@)) is None,
            },
    {
        let ghost views = nodes_view(nodes@);
        let target = chars_of("class_declaration");
        let mut i: usize = 0;
        assert(views.skip(0) =~= views);
        while i < nodes.len()
            invariant
                i <= nodes.len(),
                views == nodes_view(nodes@),
                target@ == "class_declaration"@,
                first_class_row(views) == first_class_row(views.skip(i as int)),
            decreases nodes.len() - i,
        {
            let node = &nodes[i];
            assert(views.skip(i as int)[0] == node@);
            assert(views.skip(i as int).drop_first() =~= views.skip(i + 1));
            if crate::text::chars_equal(&chars_of(node.kind.as_str()), &target) {
                return Some(node);
            }
            i = i + 1;
        }
        None
    }

    /// The GUID that the text of a `.meta` file records.
    pub fn extract_guid_from_meta(meta_content: &str) -> (guid: Option<String>)
        ensures
            opt_view(guid) == guid_of_meta(meta_content@),
    {
        guid_from_meta_text(meta_content)
    }

    /// The lines of the asset files among `files` that reference the script
    /// with the given GUID, file after file and line after line.
    pub fn find_asset_references(&self, files: &Vec<AssetFile>, script_guid: &str) -> (references:
        Vec<ScriptReference>)
        ensures
            references_view(references@) == asset_references(files_view(files@), script_guid@),
    {
        Self::find_references_in(files, script_guid)
    }

    /// The references that `files` hold to the script with the given GUID.
    pub fn find_references_in(files: &Vec<AssetFile>, script_guid: &str) -> (references: Vec<
        ScriptReference,
    >)
        ensures
            references_view(references@) == asset_references(files_view(files@), script_guid@),
    {
        let mut out: Vec<ScriptReference> = Vec::new();
        let ghost views = files_view(files@);
        let mut i: usize = 0;
        assert(views.take(0) =~= Seq::<AssetFileView>::empty());
        assert(references_view(out@) =~= Seq::<(Seq<char>, u32)>::empty());
        while i < files.len()
            invariant
                i <= files.len(),
                views == files_view(files@),
                references_view(out@) == asset_references(views.take(i as int), script_guid@),
            decreases files.len() - i,
        {
            let file = &files[i];
            let ghost before = references_view(out@);
            append_file_references(&mut out, file, script_guid);
            proof {
                let next = views.take(i + 1);
                assert(next.drop_last() =~= views.take(i as int));
                assert(next.last() == file@);
            }
            i = i + 1;
        }
        assert(views.take(files.len() as int) =~= views);
        out
    }
}

/// Appends the references that one file holds.
fn append_file_references(out: &mut Vec<ScriptReference>, file: &AssetFile, script_guid: &str)
    ensures
        references_view(final(out)@) == references_view(old(out)@) + file_references(
            file@,
            script_guid@,
        ),
{
    match &file.content {
        None => {
            assert(references_view(old(out)@) + Seq::<(Seq<char>, u32)>::empty() =~= references_view(old(out)@));
        },
        Some(content) => {
            if !is_asset_file(file.file_name.as_str()) {
                assert(references_view(old(out)@) + Seq::<(Seq<char>, u32)>::empty() =~= references_view(old(out)@));
                return;
            }
            let lines = lines_of(content.as_str());
            let numbers = matching_lines(&lines, script_guid);
            let ghost wanted = numbers@.map_values(|n: u32| (file.path@, n));
            let ghost start = references_view(out@);
            let mut k: usize = 0;
            while k < numbers.len()
                invariant
                    k <= numbers.len(),
                    start == references_view(old(out)@),
                    wanted == numbers@.map_values(|n: u32| (file.path@, n)),
                    references_view(out@) == start + wanted.take(k as int),
                decreases numbers.len() - k,
            {
                let ghost before = references_view(out@);
                out.push(ScriptReference { file_path: file.path.clone(), line_number: numbers[k] });
                proof {
                    assert(references_view(out@) =~= before.push((file.path@, numbers@[k as int])));
                    assert(wanted.take(k + 1) =~= wanted.take(k as int).push(wanted[k as int]));
                }
                k = k + 1;
            }
            assert(wanted.take(numbers.len() as int) =~= wanted);
        },
    }
}

/// The references found in a list of files are those of its first part
/// followed by those of the rest: the files can be searched one at a time.
pub proof fn lemma_asset_references_concat(
    first: Seq<AssetFileView>,
    rest: Seq<AssetFileView>,
    guid: Seq<char>,
)
    ensures
        asset_references(first + rest, guid) == asset_references(first, guid) + asset_references(
            rest,
            guid,
        ),
    decreases rest.len(),
{
    if rest.len() == 0 {
        assert(first + rest =~= first);
        assert(asset_references(first, guid) + Seq::<(Seq<char>, u32)>::empty() =~= asset_references(first, guid));
    } else {
        lemma_asset_references_concat(first, rest.drop_last(), guid);
        assert((first + rest).drop_last() =~= first + rest.drop_last());
        assert((first + rest).last() == rest.last());
        assert(asset_references(first, guid) + asset_references(rest.drop_last(), guid)
            + file_references(rest.last(), guid) =~= asset_references(first, guid) + (
        asset_references(rest.drop_last(), guid) + file_references(rest.last(), guid)));
    }
}

/// What the analysis finds in the files does not depend on the script's
/// text, and the class line depends on nothing but that text: two texts of
/// the same script take the same steps up to the class line, and a finished
/// step's class line is that of its text.
pub proof fn lemma_analysis_metamorphic(
    c1: Seq<char>,
    c2: Seq<char>,
    uri: Seq<char>,
    dir: Seq<char>,
    meta: Option<Seq<char>>,
)
    ensures
        file_part(start_step(c1, uri)) == file_part(start_step(c2, uri)),
        file_part(meta_step(dir, c1, meta)) == file_part(meta_step(dir, c2, meta)),
        start_step(c1, uri) matches AnalysisStepView::Done(_, line) ==> line == class_line_of(c1),
        meta_step(dir, c1, meta) matches AnalysisStepView::Done(_, line) ==> line == class_line_of(
            c1,
        ),
{
}

/// Whether a file is searched: an asset file whose text was read.
pub open spec fn is_searched(file: AssetFileView) -> bool {
    file.2 is Some && is_asset_file_name(file.1)
}

/// The files that are searched, in order.
pub open spec fn searched_files(files: Seq<AssetFileView>) -> Seq<AssetFileView>
    decreases files.len(),
{
    if files.len() == 0 {
        Seq::empty()
    } else if is_searched(files.last()) {
        searched_files(files.drop_last()).push(files.last())
    } else {
        searched_files(files.drop_last())
    }
}

/// Files other than read asset files never change what is found: two lists
/// with the same searched files give the same references.
pub proof fn lemma_only_searched_files_count(
    files1: Seq<AssetFileView>,
    files2: Seq<AssetFileView>,
    guid: Seq<char>,
)
    requires
        searched_files(files1) == searched_files(files2),
    ensures
        asset_references(files1, guid) == asset_references(files2, guid),
{
    lemma_references_of_searched_files(files1, guid);
    lemma_references_of_searched_files(files2, guid);
}

proof fn lemma_references_of_searched_files(files: Seq<AssetFileView>, guid: Seq<char>)
    ensures
        asset_references(files, guid) == asset_references(searched_files(files), guid),
    decreases files.len(),
{
    if files.len() > 0 {
        let rest = files.drop_last();
        lemma_references_of_searched_files(rest, guid);
        let kept = searched_files(rest);
        if is_searched(files.last()) {
            let pushed = kept.push(files.last());
            assert(pushed.drop_last() =~= kept);
            assert(pushed.last() == files.last());
        } else {
            assert(asset_references(rest, guid) + Seq::<(Seq<char>, u32)>::empty()
                =~= asset_references(rest, guid));
        }
    }
}

/// Within a text of at most 2^32 lines, the matching line numbers are each
/// the number of a line of the text and come in strictly increasing order, so
/// none is reported twice.
pub proof fn lemma_line_numbers_increasing(lines: Seq<Seq<char>>, guid: Seq<char>)
    requires
        lines.len() <= 0x1_0000_0000,
    ensures
        forall|i: int|
            0 <= i < matching_line_numbers(lines, guid).len() ==> (#[trigger] matching_line_numbers(
                lines,
                guid,
            )[i]) < lines.len(),
        forall|i: int, j: int|
            0 <= i < j < matching_line_numbers(lines, guid).len() ==> matching_line_numbers(
                lines,
                guid,
            )[i] < matching_line_numbers(lines, guid)[j],
    decreases lines.len(),
{
    if lines.len() > 0 {
        let rest = lines.drop_last();
        lemma_line_numbers_increasing(rest, guid);
        let before = matching_line_numbers(rest, guid);
        let all = matching_line_numbers(lines, guid);
        let last = (lines.len() - 1) as u32;
        assert(last == lines.len() - 1);
        if line_refers(lines.last(), guid) {
            assert(all == before.push(last));
            assert forall|i: int| 0 <= i < all.len() implies #[trigger] all[i] < lines.len() by {
                if i < before.len() {
                    assert(all[i] == before[i]);
                }
            }
            assert forall|i: int, j: int| 0 <= i < j < all.len() implies all[i] < all[j] by {
                assert(all[i] == before[i]);
                if j < before.len() {
                    assert(all[j] == before[j]);
                }
            }
        } else {
            assert(all == before);
        }
    }
}

/// The references of one file (of at most 2^32 lines) name that file and come
/// in strictly increasing line order, without repetition.
pub proof fn lemma_file_references_increasing(file: AssetFileView, guid: Seq<char>)
    requires
        file.2 is Some ==> text_lines(file.2->0).len() <= 0x1_0000_0000,
    ensures
        forall|i: int|
            0 <= i < file_references(file, guid).len() ==> (#[trigger] file_references(file, guid)[i]).0
                == file.0,
        forall|i: int, j: int|
            0 <= i < j < file_references(file, guid).len() ==> file_references(file, guid)[i].1
                < file_references(file, guid)[j].1,
{
    if file.2 is Some && is_asset_file_name(file.1) {
        lemma_line_numbers_increasing(text_lines(file.2->0), guid);
    }
}

/// Each line of a text (of at most 2^32 lines) that matches the script
/// pattern and carries the GUID is listed by its number.
proof fn lemma_referring_line_listed(lines: Seq<Seq<char>>, guid: Seq<char>, n: int)
    requires
        0 <= n < lines.len() <= 0x1_0000_0000,
        line_refers(lines[n], guid),
    ensures
        matching_line_numbers(lines, guid).contains(n as u32),
    decreases lines.len(),
{
    let rest = lines.drop_last();
    let before = matching_line_numbers(rest, guid);
    if n == lines.len() - 1 {
        let all = matching_line_numbers(lines, guid);
        assert(all == before.push((lines.len() - 1) as u32));
        assert(all[all.len() - 1] == n as u32);
    } else {
        assert(rest[n] == lines[n]);
        lemma_referring_line_listed(rest, guid, n);
        let k = choose|k: int| 0 <= k < before.len() && before[k] == n as u32;
        let all = matching_line_numbers(lines, guid);
        if line_refers(lines.last(), guid) {
            assert(all[k] == before[k]);
        } else {
            assert(all == before);
        }
        assert(all[k] == n as u32);
    }
}

/// The matching line numbers are as many as the lines that refer.
proof fn lemma_matching_count(lines: Seq<Seq<char>>, guid: Seq<char>)
    ensures
        matching_line_numbers(lines, guid).len() == lines.filter(
            |l: Seq<char>|
                regex_compiles(SCRIPT_PATTERN@) && regex_is_match(SCRIPT_PATTERN@, l) && has_guid_field(
                    l,
                    guid,
                ),
        ).len(),
    decreases lines.len(),
{
    reveal(Seq::filter);
    if lines.len() > 0 {
        lemma_matching_count(lines.drop_last(), guid);
    }
}

/// The search is complete: in every searched file (a supported extension,
/// its text read, at most 2^32 lines), every line that matches the script
/// pattern and carries the GUID in its `guid:` field is reported, as that
/// file's path with the line's number.
pub proof fn lemma_search_complete(files: Seq<AssetFileView>, guid: Seq<char>, i: int, n: int)
    requires
        0 <= i < files.len(),
        files[i].2 is Some,
        has_suffix(files[i].1, ".unity"@) || has_suffix(files[i].1, ".prefab"@) || has_suffix(
            files[i].1,
            ".asset"@,
        ),
        0 <= n < text_lines(files[i].2->0).len() <= 0x1_0000_0000,
        regex_compiles(SCRIPT_PATTERN@),
        regex_is_match(SCRIPT_PATTERN@, text_lines(files[i].2->0)[n]),
        has_guid_field(text_lines(files[i].2->0)[n], guid),
    ensures
        asset_references(files, guid).contains((files[i].0, n as u32)),
    decreases files.len(),
{
    let rest = files.drop_last();
    let before = asset_references(rest, guid);
    let all = asset_references(files, guid);
    if i == files.len() - 1 {
        let file = files.last();
        let lines = text_lines(file.2->0);
        lemma_referring_line_listed(lines, guid, n);
        let nums = matching_line_numbers(lines, guid);
        let k = choose|k: int| 0 <= k < nums.len() && nums[k] == n as u32;
        let mine = file_references(file, guid);
        assert(mine[k] == (file.0, n as u32));
        assert(all[before.len() + k] == mine[k]);
    } else {
        assert(rest[i] == files[i]);
        lemma_search_complete(rest, guid, i, n);
        let k = choose|k: int| 0 <= k < before.len() && before[k] == (files[i].0, n as u32);
        assert(all[k] == before[k]);
    }
}

/// A searched file yields exactly as many references as it has lines that
/// match the script pattern and carry the GUID; any other file yields none.
pub proof fn lemma_file_reference_count(file: AssetFileView, guid: Seq<char>)
    ensures
        file_references(file, guid).len() == if file.2 is Some && (has_suffix(file.1, ".unity"@)
            || has_suffix(file.1, ".prefab"@) || has_suffix(file.1, ".asset"@)) {
            text_lines(file.2->0).filter(
                |l: Seq<char>|
                    regex_compiles(SCRIPT_PATTERN@) && regex_is_match(SCRIPT_PATTERN@, l)
                        && has_guid_field(l, guid),
            ).len()
        } else {
            0
        },
{
    if file.2 is Some {
        lemma_matching_count(text_lines(file.2->0), guid);
    }
}

/// The class line is that of the first class declaration among the nodes,
/// whatever other nodes (enums, interfaces, structs, ...) come before it.
pub proof fn lemma_first_class_declaration_wins(nodes: Seq<SyntaxNodeView>, j: int)
    requires
        0 <= j < nodes.len(),
        nodes[j].0 == "class_declaration"@,
        forall|k: int| 0 <= k < j ==> (#[trigger] nodes[k]).0 != "class_declaration"@,
    ensures
        first_class_row(nodes) == Some(nodes[j].1),
    decreases j,
{
    if j > 0 {
        let rest = nodes.drop_first();
        assert forall|k: int| 0 <= k < j - 1 implies (#[trigger] rest[k]).0 != "class_declaration"@ by {
            assert(rest[k] == nodes[k + 1]);
        }
        assert(nodes[0].0 != "class_declaration"@);
        lemma_first_class_declaration_wins(rest, j - 1);
    }
}

/// The class line of a source is the row of the first class declaration
/// among its syntax nodes.
pub proof fn lemma_class_line_is_first_class(source: Seq<char>, j: int)
    requires
        csharp_syntax_nodes(source) is Some,
        0 <= j < csharp_syntax_nodes(source)->0.len(),
        csharp_syntax_nodes(source)->0[j].0 == "class_declaration"@,
        forall|k: int|
            0 <= k < j ==> (#[trigger] csharp_syntax_nodes(source)->0[k]).0 != "class_declaration"@,
    ensures
        class_line_of(source) == Some(csharp_syntax_nodes(source)->0[j].1 as u32),
{
    lemma_first_class_declaration_wins(csharp_syntax_nodes(source)->0, j);
}

/// Without any class declaration among the nodes there is no class line.
pub proof fn lemma_no_class_declaration(nodes: Seq<SyntaxNodeView>)
    requires
        forall|k: int| 0 <= k < nodes.len() ==> (#[trigger] nodes[k]).0 != "class_declaration"@,
    ensures
        first_class_row(nodes) is None,
    decreases nodes.len(),
{
    if nodes.len() > 0 {
        let rest = nodes.drop_first();
        assert forall|k: int| 0 <= k < rest.len() implies (#[trigger] rest[k]).0 != "class_declaration"@ by {
            assert(rest[k] == nodes[k + 1]);
        }
        assert(nodes[0].0 != "class_declaration"@);
        lemma_no_class_declaration(rest);
    }
}

/// A search for the empty GUID finds nothing.
pub proof fn lemma_empty_guid_finds_nothing(files: Seq<AssetFileView>)
    ensures
        asset_references(files, Seq::empty()) == Seq::<(Seq<char>, u32)>::empty(),
    decreases files.len(),
{
    if files.len() > 0 {
        lemma_empty_guid_finds_nothing(files.drop_last());
        let last = files.last();
        if last.2 is Some && is_asset_file_name(last.1) {
            lemma_no_lines_for_empty_guid(text_lines(last.2->0));
            assert(matching_line_numbers(text_lines(last.2->0), Seq::empty()).map_values(
                |n: u32| (last.0, n),
            ) =~= Seq::<(Seq<char>, u32)>::empty());
        }
        assert(Seq::<(Seq<char>, u32)>::empty() + file_references(last, Seq::empty())
            =~= Seq::<(Seq<char>, u32)>::empty());
    }
}

proof fn lemma_no_lines_for_empty_guid(lines: Seq<Seq<char>>)
    ensures
        matching_line_numbers(lines, Seq::empty()) == Seq::<u32>::empty(),
    decreases lines.len(),
{
    if lines.len() > 0 {
        lemma_no_lines_for_empty_guid(lines.drop_last());
    }
}

/// Every reference found points at a line that matches `SCRIPT_PATTERN` and
/// whose `guid:` field is the GUID, in a file with a supported extension.
pub proof fn lemma_references_are_matching_lines(files: Seq<AssetFileView>, guid: Seq<char>, k: int)
    requires
        0 <= k < asset_references(files, guid).len(),
    ensures
        exists|i: int, n: int|
            #![trigger files[i], text_lines(files[i].2->0)[n]]
            0 <= i < files.len() && files[i].2 is Some && is_asset_file_name(files[i].1) && 0 <= n
                < text_lines(files[i].2->0).len() && asset_references(files, guid)[k] == (
                files[i].0,
                n as u32,
            ) && line_refers(text_lines(files[i].2->0)[n], guid),
    decreases files.len(),
{
    let before = asset_references(files.drop_last(), guid);
    let last = files.last();
    if k < before.len() {
        lemma_references_are_matching_lines(files.drop_last(), guid, k);
        let (i, n) = choose|i: int, n: int|
            #![trigger files.drop_last()[i], text_lines(files.drop_last()[i].2->0)[n]]
            0 <= i < files.drop_last().len() && files.drop_last()[i].2 is Some
                && is_asset_file_name(files.drop_last()[i].1) && 0 <= n < text_lines(
                files.drop_last()[i].2->0,
            ).len() && before[k] == (files.drop_last()[i].0, n as u32) && line_refers(
                text_lines(files.drop_last()[i].2->0)[n],
                guid,
            );
        assert(files.drop_last()[i] == files[i]);
        assert(asset_references(files, guid)[k] == before[k]);
    } else {
        let j = k - before.len();
        let content = last.2->0;
        let lines = text_lines(content);
        lemma_matching_numbers_refer(lines, guid, j);
        let n = choose|n: int|
            0 <= n < lines.len() && matching_line_numbers(lines, guid)[j] == n as u32
                && #[trigger] line_refers(lines[n], guid);
        assert(files[files.len() - 1] == last);
        assert(asset_references(files, guid)[k] == file_references(last, guid)[j]);
    }
}

/// Each number that `matching_line_numbers` lists is that of a line that
/// references the script.
proof fn lemma_matching_numbers_refer(lines: Seq<Seq<char>>, guid: Seq<char>, j: int)
    requires
        0 <= j < matching_line_numbers(lines, guid).len(),
    ensures
        exists|n: int|
            0 <= n < lines.len() && matching_line_numbers(lines, guid)[j] == n as u32
                && #[trigger] line_refers(lines[n], guid),
    decreases lines.len(),
{
    let before = matching_line_numbers(lines.drop_last(), guid);
    if j < before.len() {
        lemma_matching_numbers_refer(lines.drop_last(), guid, j);
        let n = choose|n: int|
            0 <= n < lines.drop_last().len() && before[j] == n as u32
                && #[trigger] line_refers(lines.drop_last()[n], guid);
        assert(lines.drop_last()[n] == lines[n]);
    } else {
        let n = lines.len() - 1;
        assert(lines.last() == lines[n]);
        assert(line_refers(lines[n], guid));
    }
}

} // verus!
