//! A detector with no state, which finds the `Assets` directory from the
//! workspace root each time it is asked.
use crate::analyzer::{
    asset_references, assets_dir_of, files_view, AssetFile, Analyzer,
};
use crate::paths::{file_path_of_uri, opt_view, path_join, uri_file_path};
use crate::yaml::{guid_from_meta_text, guid_of_meta};
use vstd::prelude::*;

verus! {

/// A line of an asset file that references a script.
pub struct ScriptReference {
    pub file_path: String,
    pub line_number: u32,
}

impl View for ScriptReference {
    type V = (Seq<char>, u32);

    open spec fn view(&self) -> (Seq<char>, u32) {
        (self.file_path@, self.line_number)
    }
}

pub open spec fn detected_view(refs: Seq<ScriptReference>) -> Seq<(Seq<char>, u32)> {
    refs.map_values(|r: ScriptReference| r@)
}

/// The same references, as this detector reports them.
pub fn detected_references(found: &Vec<crate::analyzer::ScriptReference>) -> (refs: Vec<ScriptReference>)
    ensures
        detected_view(refs@) == crate::analyzer::references_view(found@),
{
    let ghost views = crate::analyzer::references_view(found@);
    let mut out: Vec<ScriptReference> = Vec::new();
    let mut i: usize = 0;
    while i < found.len()
        invariant
            i <= found.len(),
            views == crate::analyzer::references_view(found@),
            detected_view(out@) == views.take(i as int),
        decreases found.len() - i,
    {
        let r = &found[i];
        let ghost before = detected_view(out@);
        out.push(ScriptReference { file_path: r.file_path.clone(), line_number: r.line_number });
        assert(detected_view(out@) =~= before.push(r@));
        assert(views.take(i + 1) =~= views.take(i as int).push(views[i as int]));
        i = i + 1;
    }
    assert(views.take(found.len() as int) =~= views);
    out
}

/// Finds the scripts' GUIDs and the asset lines that reference them.
pub struct AssetDetector;

impl AssetDetector {
    /// The GUID that the text of a `.meta` file records, under the key
    /// `guid` of its first document.
    pub fn extract_guid_from_meta(meta_content: &str) -> (guid: Option<String>)
        ensures
            opt_view(guid) == guid_of_meta(meta_content@),
    {
        guid_from_meta_text(meta_content)
    }

    /// The `Assets` directory under the workspace root that a URI names.
    pub fn assets_dir(workspace_root: &str) -> (dir: String)
        requires
            uri_file_path(workspace_root@) is Some,
        ensures
            assets_dir_of(workspace_root@) == Some(dir@),
    {
        match file_path_of_uri(workspace_root) {
            Some(root) => path_join(root.as_str(), "Assets"),
            None => String::new(),
        }
    }

    /// The `Assets` directory under the workspace root, or `None` when the
    /// URI names no local directory.
    pub fn try_assets_dir(workspace_root: &str) -> (dir: Option<String>)
        ensures
            opt_view(dir) == assets_dir_of(workspace_root@),
    {
        match file_path_of_uri(workspace_root) {
            Some(_) => Some(Self::assets_dir(workspace_root)),
            None => None,
        }
    }

    /// The lines of the asset files among `files` that reference the script
    /// with the given GUID, file after file and line after line.
    pub fn find_asset_references(files: &Vec<AssetFile>, script_guid: &str) -> (references: Vec<
        ScriptReference,
    >)
        ensures
            detected_view(references@) == asset_references(files_view(files@), script_guid@),
    {
        let found = Analyzer::find_references_in(files, script_guid);
        detected_references(&found)
    }
}

} // verus!
