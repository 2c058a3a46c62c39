//! The part of a YAML text that the library reads: for each document, whether
//! it is a mapping and, if so, its entries with the text of the keys and
//! values that are scalars. Parsing is done by `saphyr`.
use saphyr::{Scalar, Yaml, YamlLoader};
use saphyr_parser::Parser;
use vstd::prelude::*;

verus! {

/// One entry of a YAML mapping: the key and the value, each present when it
/// is a scalar other than null (an empty plain scalar, `~`, `null`), as the
/// text it is written with (quotes and escapes resolved, not read as a number
/// or a boolean). A quoted empty scalar is the empty text.
pub struct YamlEntry {
    pub key: Option<String>,
    pub value: Option<String>,
}

/// One YAML document: its mapping entries in document order, or `None` when
/// the document is not a mapping.
pub struct YamlDocument {
    pub mapping: Option<Vec<YamlEntry>>,
}

pub type YamlEntryView = (Option<Seq<char>>, Option<Seq<char>>);

pub type YamlDocumentView = Option<Seq<YamlEntryView>>;

pub open spec fn opt_string_view(s: Option<String>) -> Option<Seq<char>> {
    match s {
        Some(s) => Some(s@),
        None => None,
    }
}

impl View for YamlEntry {
    type V = YamlEntryView;

    open spec fn view(&self) -> YamlEntryView {
        (opt_string_view(self.key), opt_string_view(self.value))
    }
}

impl View for YamlDocument {
    type V = YamlDocumentView;

    open spec fn view(&self) -> YamlDocumentView {
        match self.mapping {
            Some(entries) => Some(entries_view(entries@)),
            None => None,
        }
    }
}

pub open spec fn entries_view(entries: Seq<YamlEntry>) -> Seq<YamlEntryView> {
    entries.map_values(|e: YamlEntry| e@)
}

pub open spec fn documents_view(docs: Seq<YamlDocument>) -> Seq<YamlDocumentView> {
    docs.map_values(|d: YamlDocument| d@)
}

/// The documents that `saphyr` reads from a YAML text, with scalars kept as
/// text, or `None` when it refuses the text.
pub uninterp spec fn yaml_documents(source: Seq<char>) -> Option<Seq<YamlDocumentView>>;

/// Loads a YAML text with a `saphyr::YamlLoader` set not to resolve scalars
/// (`early_parse(false)`), driven by `saphyr_parser::Parser`, and keeps, for
/// each document, its mapping entries (`Yaml::as_mapping`) with the text of
/// each key and value that is a scalar (`Yaml::Representation`) which
/// `Scalar::parse_from_cow_and_metadata` does not resolve to null. The contract
/// claims only that the result is `yaml_documents` of the text: the same text
/// always loads the same way.
#[verifier::external_body]
pub(crate) fn load_yaml_documents(source: &str) -> (docs: Option<Vec<YamlDocument>>)
    ensures
        match docs {
            Some(d) => yaml_documents(source@) == Some(documents_view(d@)),
            None => yaml_documents(source@) is None,
        },
{
    let mut loader = YamlLoader::<Yaml>::default();
    loader.early_parse(false);
    Parser::new_from_str(source).load(&mut loader, true).ok()?;
    let text = |node: &Yaml| match node {
        Yaml::Representation(v, style, tag) => match Scalar::parse_from_cow_and_metadata(v.clone(), *style, tag.as_ref()) {
            Some(Scalar::Null) => None,
            _ => Some(v.to_string())
        }
        _ => None
    };
    loader.error().is_none().then_some(loader.into_documents().iter().map(|doc| YamlDocument {
        mapping: doc.as_mapping().map(|m| m.iter().map(|(k, v)| YamlEntry { key: text(k), value: text(v) }).collect()),
    }).collect())
}

/// The value of the first entry whose key is `guid` and whose value is a
/// scalar text (the empty text included).
pub open spec fn guid_of_entries(entries: Seq<YamlEntryView>) -> Option<Seq<char>>
    decreases entries.len(),
{
    if entries.len() == 0 {
        None
    } else if entries[0].0 == Some("guid"@) && entries[0].1 is Some {
        entries[0].1
    } else {
        guid_of_entries(entries.drop_first())
    }
}

/// The GUID that a `.meta` file records: looked up in its first document,
/// which must be a mapping.
pub open spec fn guid_of_documents(docs: Seq<YamlDocumentView>) -> Option<Seq<char>> {
    if docs.len() == 0 {
        None
    } else {
        match docs[0] {
            Some(entries) => guid_of_entries(entries),
            None => None,
        }
    }
}

/// The GUID of a `.meta` text, or `None` when the text is no YAML or has no
/// such entry.
pub open spec fn guid_of_meta(source: Seq<char>) -> Option<Seq<char>> {
    match yaml_documents(source) {
        Some(docs) => guid_of_documents(docs),
        None => None,
    }
}

/// Whether a key is `guid`.
fn is_guid_key(key: &Option<String>) -> (is_guid: bool)
    ensures
        is_guid == (opt_string_view(*key) == Some("guid"@)),
{
    match key {
        Some(k) => crate::text::str_equal(k.as_str(), "guid"),
        None => false,
    }
}

/// The GUID recorded in already loaded YAML documents.
pub fn guid_from_documents(docs: &Vec<YamlDocument>) -> (guid: Option<String>)
    ensures
        opt_string_view(guid) == guid_of_documents(documents_view(docs@)),
{
    if docs.len() == 0 {
        return None;
    }
    let first = &docs[0];
    assert(documents_view(docs@)[0] == first@);
    match &first.mapping {
        None => None,
        Some(entries) => {
            let ghost view = entries_view(entries@);
            let mut i: usize = 0;
            assert(view.skip(0) =~= view);
            assert(guid_of_documents(documents_view(docs@)) == guid_of_entries(view));
            while i < entries.len()
                invariant
                    guid_of_documents(documents_view(docs@)) == guid_of_entries(view),
                    i <= entries.len(),
                    view == entries_view(entries@),
                    guid_of_entries(view) == guid_of_entries(view.skip(i as int)),
                decreases entries.len() - i,
            {
                let entry = &entries[i];
                assert(view.skip(i as int)[0] == entry@);
                assert(view.skip(i as int).drop_first() =~= view.skip(i + 1));
                if is_guid_key(&entry.key) {
                    match &entry.value {
                        Some(v) => {
                            assert(entry@.1 == Some(v@));
                            return Some(v.clone());
                        },
                        None => {},
                    }
                }
                i = i + 1;
            }
            assert(view.skip(i as int).len() == 0);
            None
        },
    }
}

/// Reads the GUID from the text of a `.meta` file.
pub fn guid_from_meta_text(source: &str) -> (guid: Option<String>)
    ensures
        opt_string_view(guid) == guid_of_meta(source@),
{
    match load_yaml_documents(source) {
        Some(docs) => guid_from_documents(&docs),
        None => None,
    }
}

} // verus!
