//! The code lens above a script's class: created with the asset references
//! as its data, resolved into a command that lists their locations.
use crate::analyzer::{references_view, AnalysisResult, ScriptReference};
use crate::lsp::{line_marker, line_range, same_command, CodeLens, Command, Location, Range};
use crate::paths::{file_url, url_from_file_path};
use crate::text::{decimal, push_decimal};
use vstd::prelude::*;

verus! {

/// The lens data: the references found for the script.
pub type LensData = Vec<ScriptReference>;

/// The location of a reference: the `file:` URL of its path, on its line.
pub open spec fn reference_location(r: (Seq<char>, u32)) -> Option<(Seq<char>, u32)> {
    match url_from_file_path(r.0) {
        Some(url) => Some((url, r.1)),
        None => None,
    }
}

/// The locations of the references whose paths have `file:` URLs (absolute
/// paths), in order.
pub open spec fn resolved_locations(refs: Seq<(Seq<char>, u32)>) -> Seq<(Seq<char>, u32)>
    decreases refs.len(),
{
    if refs.len() == 0 {
        Seq::empty()
    } else {
        let before = resolved_locations(refs.drop_last());
        match reference_location(refs.last()) {
            Some(l) => before.push(l),
            None => before,
        }
    }
}

/// Each location names the expected URI and marks the expected line.
pub open spec fn locations_match(locations: Seq<Location>, expected: Seq<(Seq<char>, u32)>) -> bool {
    &&& locations.len() == expected.len()
    &&& forall|i: int|
        0 <= i < locations.len() ==> (#[trigger] locations[i]).uri@ == expected[i].0 && line_marker(
            locations[i].range,
            expected[i].1,
        )
}

/// The title of the resolved lens: `<count> Unity reference`, with an `s`
/// unless the count is one.
pub open spec fn reference_title(count: nat) -> Seq<char> {
    decimal(count) + " Unity reference"@ + if count == 1 {
        Seq::<char>::empty()
    } else {
        "s"@
    }
}

/// The lens that `create_codelens` makes: on the class line (or line 0),
/// with no command and the references as data.
pub open spec fn is_created_lens(lens: CodeLens<LensData>, analysis: AnalysisResult) -> bool {
    &&& line_marker(
        lens.range,
        match analysis.class_line {
            Some(line) => line,
            None => 0,
        },
    )
    &&& lens.command is None
    &&& lens.data matches Some(refs) && refs@ == analysis.asset_references@
}

/// Two lenses with the same range, command and data.
pub open spec fn same_lens(a: CodeLens<LensData>, b: CodeLens<LensData>) -> bool {
    &&& a.range == b.range
    &&& match (a.command, b.command) {
        (Some(x), Some(y)) => same_command(x, y),
        (None, None) => true,
        _ => false,
    }
    &&& match (a.data, b.data) {
        (Some(x), Some(y)) => x@ == y@,
        (None, None) => true,
        _ => false,
    }
}

/// `resolved` is what `resolve_codelens` makes of `lens`.
pub open spec fn is_resolution(resolved: CodeLens<LensData>, lens: CodeLens<LensData>) -> bool {
    match lens.data {
        None => same_lens(resolved, lens),
        Some(refs) => {
            &&& resolved.range == lens.range
            &&& resolved.data is None
            &&& resolved.command matches Some(cmd) && {
                &&& cmd.command@ == "showUnityReferences"@
                &&& locations_match(cmd.locations@, resolved_locations(references_view(refs@)))
                &&& cmd.title@ == reference_title(cmd.locations@.len())
            }
        },
    }
}

/// The code lenses for an analysed script: one lens on the line of its class
/// declaration (line 0 without one), carrying the asset references.
pub fn create_codelens(analysis: AnalysisResult) -> (lenses: Vec<CodeLens<LensData>>)
    ensures
        lenses@.len() == 1,
        is_created_lens(lenses@[0], analysis),
{
    let class_line = match analysis.class_line {
        Some(line) => line,
        None => 0,
    };
    let lens = CodeLens {
        range: line_range(class_line),
        command: None,
        data: Some(analysis.asset_references),
    };
    let mut lenses: Vec<CodeLens<LensData>> = Vec::new();
    lenses.push(lens);
    lenses
}

/// The title for `count` references.
pub fn reference_title_text(count: usize) -> (title: String)
    ensures
        title@ == reference_title(count as nat),
{
    let mut title = String::new();
    push_decimal(&mut title, count);
    title.append(" Unity reference");
    if count != 1 {
        title.append("s");
    }
    title
}

/// The locations of the references whose paths have `file:` URLs.
pub fn reference_locations(refs: &Vec<ScriptReference>) -> (locations: Vec<Location>)
    ensures
        locations_match(locations@, resolved_locations(references_view(refs@))),
{
    let ghost views = references_view(refs@);
    let mut out: Vec<Location> = Vec::new();
    let mut i: usize = 0;
    assert(views.take(0) =~= Seq::<(Seq<char>, u32)>::empty());
    while i < refs.len()
        invariant
            i <= refs.len(),
            views == references_view(refs@),
            locations_match(out@, resolved_locations(views.take(i as int))),
        decreases refs.len() - i,
    {
        let r = &refs[i];
        let ghost before = resolved_locations(views.take(i as int));
        proof {
            let next = views.take(i + 1);
            assert(next.drop_last() =~= views.take(i as int));
            assert(next.last() == r@);
        }
        match file_url(r.file_path.as_str()) {
            Some(uri) => {
                out.push(Location { uri, range: line_range(r.line_number) });
            },
            None => {},
        }
        i = i + 1;
    }
    assert(views.take(refs.len() as int) =~= views);
    out
}

/// Resolves a lens: its references become the locations of a
/// `showUnityReferences` command titled with their number; a lens without
/// data is given back as it is.
pub fn resolve_codelens(lens: CodeLens<LensData>) -> (resolved: CodeLens<LensData>)
    ensures
        is_resolution(resolved, lens),
{
    match &lens.data {
        None => lens,
        Some(refs) => {
            let locations = reference_locations(refs);
            let title = reference_title_text(locations.len());
            let command = Command {
                title,
                command: String::from_str("showUnityReferences"),
                locations,
            };
            CodeLens { range: lens.range, command: Some(command), data: None }
        },
    }
}

/// A copy of a lens.
pub fn duplicate_lens(lens: &CodeLens<LensData>) -> (copy: CodeLens<LensData>)
    ensures
        same_lens(copy, *lens),
{
    let command = match &lens.command {
        Some(c) => Some(c.duplicate()),
        None => None,
    };
    let data = match &lens.data {
        Some(d) => Some(crate::analyzer::duplicate_references(d)),
        None => None,
    };
    CodeLens { range: lens.range, command, data }
}

/// A resolved lens counts its locations in its title, and never claims more
/// locations than the lens had references.
pub proof fn lemma_resolution_counts(resolved: CodeLens<LensData>, lens: CodeLens<LensData>)
    requires
        is_resolution(resolved, lens),
        lens.data is Some,
    ensures
        resolved.command matches Some(cmd) && cmd.title@ == reference_title(cmd.locations@.len())
            && cmd.locations@.len() <= lens.data->0@.len(),
{
    lemma_resolved_locations_len(references_view(lens.data->0@));
}

proof fn lemma_resolved_locations_len(refs: Seq<(Seq<char>, u32)>)
    ensures
        resolved_locations(refs).len() <= refs.len(),
    decreases refs.len(),
{
    if refs.len() > 0 {
        lemma_resolved_locations_len(refs.drop_last());
    }
}

/// Every reference whose path has a `file:` URL gets a location of its own,
/// its URL on its line, so two references in one file give two locations;
/// the locations are as many as those references, and each comes from one.
pub proof fn lemma_every_reference_located(refs: Seq<(Seq<char>, u32)>)
    ensures
        resolved_locations(refs).len() == refs.filter(
            |r: (Seq<char>, u32)| url_from_file_path(r.0) is Some,
        ).len(),
        forall|i: int|
            0 <= i < refs.len() && url_from_file_path(refs[i].0) is Some ==> resolved_locations(
                refs,
            ).contains((url_from_file_path(#[trigger] refs[i].0)->0, refs[i].1)),
        forall|k: int|
            #![trigger resolved_locations(refs)[k]]
            0 <= k < resolved_locations(refs).len() ==> exists|i: int|
                0 <= i < refs.len() && url_from_file_path(#[trigger] refs[i].0) == Some(
                    resolved_locations(refs)[k].0,
                ) && refs[i].1 == resolved_locations(refs)[k].1,
    decreases refs.len(),
{
    reveal(Seq::filter);
    if refs.len() > 0 {
        let rest = refs.drop_last();
        lemma_every_reference_located(rest);
        let before = resolved_locations(rest);
        let all = resolved_locations(refs);
        assert forall|i: int|
            0 <= i < refs.len() && url_from_file_path(refs[i].0) is Some implies all.contains(
            (url_from_file_path(#[trigger] refs[i].0)->0, refs[i].1),
        ) by {
            if i == refs.len() - 1 {
                assert(all[all.len() - 1] == (url_from_file_path(refs[i].0)->0, refs[i].1));
            } else {
                assert(rest[i] == refs[i]);
                let k = choose|k: int|
                    0 <= k < before.len() && before[k] == (url_from_file_path(rest[i].0)->0, rest[i].1);
                assert(all[k] == before[k]);
            }
        }
        assert forall|k: int| #![trigger all[k]] 0 <= k < all.len() implies exists|i: int|
            0 <= i < refs.len() && url_from_file_path(#[trigger] refs[i].0) == Some(all[k].0)
                && refs[i].1 == all[k].1 by {
            if k < before.len() {
                assert(all[k] == before[k]);
                let i = choose|i: int|
                    0 <= i < rest.len() && url_from_file_path(#[trigger] rest[i].0) == Some(before[k].0)
                        && rest[i].1 == before[k].1;
                assert(rest[i] == refs[i]);
            } else {
                let i = refs.len() - 1;
                assert(url_from_file_path(refs[i].0) == Some(all[k].0));
            }
        }
    }
}

/// Resolving a resolved lens changes nothing: its data is gone.
pub proof fn lemma_resolve_idempotent(
    once: CodeLens<LensData>,
    twice: CodeLens<LensData>,
    lens: CodeLens<LensData>,
)
    requires
        is_resolution(once, lens),
        is_resolution(twice, once),
    ensures
        same_lens(twice, once),
{
}

/// A lens resolves the same way as any lens with the same range, command and
/// data.
pub proof fn lemma_resolution_of_same_lens(
    resolved: CodeLens<LensData>,
    copy: CodeLens<LensData>,
    lens: CodeLens<LensData>,
)
    requires
        is_resolution(resolved, copy),
        same_lens(copy, lens),
    ensures
        is_resolution(resolved, lens),
{
}

} // verus!
