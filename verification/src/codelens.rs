//! A script lens whose data also records the script's URI, and whose
//! locations are made of `file:` URLs checked as LSP URIs.
use crate::analyzer::{references_view, AnalysisResult};
use crate::asset_detector::{detected_references, detected_view, ScriptReference};
use crate::capabilities::code_lens::{reference_title, reference_title_text};
use crate::lsp::{line_marker, line_range, CodeLens, Command, Location};
use crate::paths::{file_url, lsp_uri_parses, parse_lsp_uri, url_from_file_path};
use vstd::prelude::*;
use vstd::utf8::encode_utf8;

verus! {

/// The lens data: the script's URI and the references found for it.
pub struct CodeLensData {
    pub uri: String,
    pub asset_references: Vec<ScriptReference>,
}

/// The location of a reference: the `file:` URL of its path, when the path
/// has one and that URL is accepted as an LSP URI, on its line. A URL longer
/// than `i32::MAX` bytes, on which the URI parser would panic, gives none.
pub open spec fn file_location(r: (Seq<char>, u32)) -> Option<(Seq<char>, u32)> {
    match url_from_file_path(r.0) {
        Some(url) => if encode_utf8(url).len() as usize <= i32::MAX && lsp_uri_parses(url) {
            Some((url, r.1))
        } else {
            None
        },
        None => None,
    }
}

/// The locations of the references that have one, in order.
pub open spec fn file_locations(refs: Seq<(Seq<char>, u32)>) -> Seq<(Seq<char>, u32)>
    decreases refs.len(),
{
    if refs.len() == 0 {
        Seq::empty()
    } else {
        let before = file_locations(refs.drop_last());
        match file_location(refs.last()) {
            Some(l) => before.push(l),
            None => before,
        }
    }
}

/// Each location names the expected URI and marks the expected line.
pub open spec fn locations_are(locations: Seq<Location>, expected: Seq<(Seq<char>, u32)>) -> bool {
    &&& locations.len() == expected.len()
    &&& forall|i: int|
        0 <= i < locations.len() ==> (#[trigger] locations[i]).uri@ == expected[i].0 && line_marker(
            locations[i].range,
            expected[i].1,
        )
}

/// `resolved` is what `resolve_codelens` makes of `lens`.
pub open spec fn is_file_resolution(resolved: CodeLens<CodeLensData>, lens: CodeLens<CodeLensData>) -> bool {
    match lens.data {
        None => resolved == lens,
        Some(data) => {
            &&& resolved.range == lens.range
            &&& resolved.data is None
            &&& resolved.command matches Some(cmd) && {
                &&& cmd.command@ == "showUnityReferences"@
                &&& locations_are(cmd.locations@, file_locations(detected_view(data.asset_references@)))
                &&& cmd.title@ == reference_title(cmd.locations@.len())
            }
        },
    }
}

/// The code lenses for an analysed script: one lens on the line of its class
/// declaration (line 0 without one), carrying the script's URI and the asset
/// references.
pub fn create_codelens(analysis: AnalysisResult, uri: String) -> (lenses: Vec<CodeLens<CodeLensData>>)
    ensures
        lenses@.len() == 1,
        line_marker(
            lenses@[0].range,
            match analysis.class_line {
                Some(line) => line,
                None => 0,
            },
        ),
        lenses@[0].command is None,
        lenses@[0].data matches Some(d) && d.uri == uri && detected_view(d.asset_references@)
            == references_view(analysis.asset_references@),
{
    let class_line = match analysis.class_line {
        Some(line) => line,
        None => 0,
    };
    let refs = detected_references(&analysis.asset_references);
    let lens = CodeLens {
        range: line_range(class_line),
        command: None,
        data: Some(CodeLensData { uri, asset_references: refs }),
    };
    let mut lenses: Vec<CodeLens<CodeLensData>> = Vec::new();
    lenses.push(lens);
    lenses
}

/// The location of one reference, if it has one.
fn location_of(r: &ScriptReference) -> (location: Option<Location>)
    ensures
        match location {
            Some(l) => file_location(r@) == Some((l.uri@, r.line_number)) && line_marker(
                l.range,
                r.line_number,
            ),
            None => file_location(r@) is None,
        },
{
    match file_url(r.file_path.as_str()) {
        Some(url) => {
            let text = url.as_str();
            assert(text@ == url@);
            assert(text.len() == encode_utf8(url@).len() as usize);
            if text.len() <= i32::MAX as usize {
                match parse_lsp_uri(url.as_str()) {
                    Some(uri) => Some(Location { uri, range: line_range(r.line_number) }),
                    None => None,
                }
            } else {
                None
            }
        },
        None => None,
    }
}

/// Resolves a lens: its references become the locations of a
/// `showUnityReferences` command titled with their number; a lens without
/// data is given back as it is.
pub fn resolve_codelens(lens: CodeLens<CodeLensData>) -> (resolved: CodeLens<CodeLensData>)
    ensures
        is_file_resolution(resolved, lens),
{
    match &lens.data {
        None => lens,
        Some(data) => {
            let refs = &data.asset_references;
            let ghost views = detected_view(refs@);
            let mut locations: Vec<Location> = Vec::new();
            let mut i: usize = 0;
            assert(views.take(0) =~= Seq::<(Seq<char>, u32)>::empty());
            while i < refs.len()
                invariant
                    i <= refs.len(),
                    views == detected_view(refs@),
                    locations_are(locations@, file_locations(views.take(i as int))),
                decreases refs.len() - i,
            {
                let r = &refs[i];
                proof {
                    let next = views.take(i + 1);
                    assert(next.drop_last() =~= views.take(i as int));
                    assert(next.last() == r@);
                }
                match location_of(r) {
                    Some(l) => locations.push(l),
                    None => {},
                }
                i = i + 1;
            }
            assert(views.take(refs.len() as int) =~= views);
            let title = reference_title_text(locations.len());
            let command = Command {
                title,
                command: String::from_str("showUnityReferences"),
                locations,
            };
            CodeLens { range: lens.range, command: Some(command), data: None }
        },
    }
}

/// A resolved lens counts its locations in its title, and never claims more
/// locations than the lens had references.
pub proof fn lemma_file_resolution_counts(resolved: CodeLens<CodeLensData>, lens: CodeLens<CodeLensData>)
    requires
        is_file_resolution(resolved, lens),
        lens.data is Some,
    ensures
        resolved.command matches Some(cmd) && cmd.title@ == reference_title(cmd.locations@.len())
            && cmd.locations@.len() <= lens.data->0.asset_references@.len(),
{
    lemma_file_locations_len(detected_view(lens.data->0.asset_references@));
}

/// Every reference whose path has a `file:` URL that is accepted as an LSP
/// URI (of at most `i32::MAX` bytes) gets a location of its own, that URL on
/// its line, so two references in one file give two locations; the
/// locations are as many as those references, and each comes from one.
pub proof fn lemma_every_file_reference_located(refs: Seq<(Seq<char>, u32)>)
    ensures
        file_locations(refs).len() == refs.filter(
            |r: (Seq<char>, u32)|
                url_from_file_path(r.0) is Some && encode_utf8(url_from_file_path(r.0)->0).len() as usize
                    <= i32::MAX && lsp_uri_parses(url_from_file_path(r.0)->0),
        ).len(),
        forall|i: int|
            0 <= i < refs.len() && url_from_file_path(refs[i].0) is Some && encode_utf8(
                url_from_file_path(refs[i].0)->0,
            ).len() as usize <= i32::MAX && lsp_uri_parses(url_from_file_path(refs[i].0)->0)
                ==> file_locations(refs).contains(
                (url_from_file_path(#[trigger] refs[i].0)->0, refs[i].1),
            ),
        forall|k: int|
            #![trigger file_locations(refs)[k]]
            0 <= k < file_locations(refs).len() ==> exists|i: int|
                0 <= i < refs.len() && url_from_file_path(#[trigger] refs[i].0) == Some(
                    file_locations(refs)[k].0,
                ) && refs[i].1 == file_locations(refs)[k].1,
    decreases refs.len(),
{
    reveal(Seq::filter);
    if refs.len() > 0 {
        let rest = refs.drop_last();
        lemma_every_file_reference_located(rest);
        let before = file_locations(rest);
        let all = file_locations(refs);
        assert forall|i: int|
            0 <= i < refs.len() && url_from_file_path(refs[i].0) is Some && encode_utf8(
                url_from_file_path(refs[i].0)->0,
            ).len() as usize <= i32::MAX && lsp_uri_parses(url_from_file_path(refs[i].0)->0)
                implies all.contains((url_from_file_path(#[trigger] refs[i].0)->0, refs[i].1)) by {
            if i == refs.len() - 1 {
                assert(all[all.len() - 1] == (url_from_file_path(refs[i].0)->0, refs[i].1));
            } else {
                assert(rest[i] == refs[i]);
                let k = choose|k: int|
                    0 <= k < before.len() && before[k] == (url_from_file_path(rest[i].0)->0, rest[i].1);
                assert(all[k] == before[k]);
            }
        }
        assert forall|k: int| #![trigger all[k]] 0 <= k < all.len() implies exists|i: int|
            0 <= i < refs.len() && url_from_file_path(#[trigger] refs[i].0) == Some(all[k].0)
                && refs[i].1 == all[k].1 by {
            if k < before.len() {
                assert(all[k] == before[k]);
                let i = choose|i: int|
                    0 <= i < rest.len() && url_from_file_path(#[trigger] rest[i].0) == Some(before[k].0)
                        && rest[i].1 == before[k].1;
                assert(rest[i] == refs[i]);
            } else {
                let i = refs.len() - 1;
                assert(url_from_file_path(refs[i].0) == Some(all[k].0));
            }
        }
    }
}

proof fn lemma_file_locations_len(refs: Seq<(Seq<char>, u32)>)
    ensures
        file_locations(refs).len() <= refs.len(),
    decreases refs.len(),
{
    if refs.len() > 0 {
        lemma_file_locations_len(refs.drop_last());
    }
}

} // verus!
