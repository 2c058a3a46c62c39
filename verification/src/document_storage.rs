//! The text of the documents that the client has open, by URI.
use vstd::prelude::*;

verus! {

/// An `fxhash::FxHashMap` from URI to document text. Verus cannot take the
/// std `HashMap` contracts that vstd gives for it here (they hold only for
/// key types and hashers that Verus knows to behave), so the map is held
/// opaque and its contents are named by `document_map_contents`.
#[verifier::external_body]
pub struct DocumentMap {
    entries: fxhash::FxHashMap<String, String>,
}

/// What a `DocumentMap` holds: each key with its value, as text.
pub uninterp spec fn document_map_contents(m: DocumentMap) -> Map<Seq<char>, Seq<char>>;

/// `FxHashMap::default`: a map with no entries.
#[verifier::external_body]
fn document_map_new() -> (fresh: DocumentMap)
    ensures
        document_map_contents(fresh).dom() == Set::<Seq<char>>::empty(),
{
    DocumentMap { entries: fxhash::FxHashMap::default() }
}

/// `HashMap::insert`: afterwards the key maps to the value, every other key
/// as before.
#[verifier::external_body]
fn document_map_insert(m: &mut DocumentMap, key: String, value: String)
    ensures
        document_map_contents(*final(m)) == document_map_contents(*old(m)).insert(key@, value@),
{
    m.entries.insert(key, value);
}

/// `HashMap::remove`: afterwards the key is absent, every other key as
/// before.
#[verifier::external_body]
fn document_map_remove(m: &mut DocumentMap, key: &str)
    ensures
        document_map_contents(*final(m)) == document_map_contents(*old(m)).remove(key@),
{
    m.entries.remove(key);
}

/// `HashMap::get`: the value stored under the key, if any.
#[verifier::external_body]
fn document_map_get<'a>(m: &'a DocumentMap, key: &str) -> (value: Option<&'a String>)
    ensures
        value is Some <==> document_map_contents(*m).contains_key(key@),
        value matches Some(v) ==> v@ == document_map_contents(*m)[key@],
{
    m.entries.get(key)
}

/// The documents after one is opened: its text is stored under its URI.
pub open spec fn after_open(docs: Map<Seq<char>, Seq<char>>, uri: Seq<char>, content: Seq<char>) -> Map<
    Seq<char>,
    Seq<char>,
> {
    docs.insert(uri, content)
}

/// The documents after one is changed to a new whole text.
pub open spec fn after_change(
    docs: Map<Seq<char>, Seq<char>>,
    uri: Seq<char>,
    content: Seq<char>,
) -> Map<Seq<char>, Seq<char>> {
    docs.insert(uri, content)
}

/// The documents after one is closed: its URI is forgotten.
pub open spec fn after_close(docs: Map<Seq<char>, Seq<char>>, uri: Seq<char>) -> Map<
    Seq<char>,
    Seq<char>,
> {
    docs.remove(uri)
}

/// The text stored under a URI, if any.
pub open spec fn lookup(docs: Map<Seq<char>, Seq<char>>, uri: Seq<char>) -> Option<Seq<char>> {
    if docs.contains_key(uri) {
        Some(docs[uri])
    } else {
        None
    }
}

/// The open documents, by URI.
pub struct DocumentStorage {
    documents: DocumentMap,
}

impl View for DocumentStorage {
    type V = Map<Seq<char>, Seq<char>>;

    closed spec fn view(&self) -> Map<Seq<char>, Seq<char>> {
        document_map_contents(self.documents)
    }
}

impl DocumentStorage {
    /// A storage with no documents.
    pub fn new() -> (docs: Self)
        ensures
            docs@ == Map::<Seq<char>, Seq<char>>::empty(),
    {
        let docs = DocumentStorage { documents: document_map_new() };
        assert(docs@ =~= Map::<Seq<char>, Seq<char>>::empty());
        docs
    }

    /// Stores the text of a document that was opened.
    pub fn open(&mut self, uri: String, content: String)
        ensures
            final(self)@ == after_open(old(self)@, uri@, content@),
    {
        document_map_insert(&mut self.documents, uri, content);
    }

    /// Replaces the text of a document with its new whole text.
    pub fn change(&mut self, uri: String, change: String)
        ensures
            final(self)@ == after_change(old(self)@, uri@, change@),
    {
        document_map_insert(&mut self.documents, uri, change);
    }

    /// Forgets a document that was closed.
    pub fn close(&mut self, uri: &str)
        ensures
            final(self)@ == after_close(old(self)@, uri@),
    {
        document_map_remove(&mut self.documents, uri);
    }

    /// The text of a document, if it is open.
    pub fn get(&self, uri: &str) -> (content: Option<&str>)
        ensures
            match content {
                Some(c) => lookup(self@, uri@) == Some(c@),
                None => lookup(self@, uri@) is None,
            },
    {
        match document_map_get(&self.documents, uri) {
            Some(text) => Some(text.as_str()),
            None => None,
        }
    }
}

/// A change of the documents, as values.
pub enum DocumentChange {
    Open(Seq<char>, Seq<char>),
    Change(Seq<char>, Seq<char>),
    Close(Seq<char>),
}

/// The documents after one change.
pub open spec fn apply_change(docs: Map<Seq<char>, Seq<char>>, change: DocumentChange) -> Map<
    Seq<char>,
    Seq<char>,
> {
    match change {
        DocumentChange::Open(uri, text) => after_open(docs, uri, text),
        DocumentChange::Change(uri, text) => after_change(docs, uri, text),
        DocumentChange::Close(uri) => after_close(docs, uri),
    }
}

/// The documents after a sequence of changes, in order.
pub open spec fn replay(docs: Map<Seq<char>, Seq<char>>, changes: Seq<DocumentChange>) -> Map<
    Seq<char>,
    Seq<char>,
>
    decreases changes.len(),
{
    if changes.len() == 0 {
        docs
    } else {
        apply_change(replay(docs, changes.drop_last()), changes.last())
    }
}

/// The text of the last open or change of `uri` after its last close, if
/// any.
pub open spec fn last_text(changes: Seq<DocumentChange>, uri: Seq<char>) -> Option<Seq<char>>
    decreases changes.len(),
{
    if changes.len() == 0 {
        None
    } else {
        match changes.last() {
            DocumentChange::Open(u, text) => if u == uri {
                Some(text)
            } else {
                last_text(changes.drop_last(), uri)
            },
            DocumentChange::Change(u, text) => if u == uri {
                Some(text)
            } else {
                last_text(changes.drop_last(), uri)
            },
            DocumentChange::Close(u) => if u == uri {
                None
            } else {
                last_text(changes.drop_last(), uri)
            },
        }
    }
}

/// After any sequence of opens, changes and closes from a new storage, a
/// document reads as the text of its last open or change after its last
/// close, and is absent when there is none.
pub proof fn lemma_replay_reads_last_text(changes: Seq<DocumentChange>, uri: Seq<char>)
    ensures
        lookup(replay(Map::empty(), changes), uri) == last_text(changes, uri),
    decreases changes.len(),
{
    if changes.len() > 0 {
        lemma_replay_reads_last_text(changes.drop_last(), uri);
    }
}

/// A document reads back as the text it was opened with.
pub proof fn lemma_get_after_open(docs: Map<Seq<char>, Seq<char>>, uri: Seq<char>, content: Seq<char>)
    ensures
        lookup(after_open(docs, uri, content), uri) == Some(content),
{
}

/// A document reads back as the whole text it was last changed to.
pub proof fn lemma_get_after_change(
    docs: Map<Seq<char>, Seq<char>>,
    uri: Seq<char>,
    content: Seq<char>,
)
    ensures
        lookup(after_change(docs, uri, content), uri) == Some(content),
{
}

/// A closed document is no longer found.
pub proof fn lemma_get_after_close(docs: Map<Seq<char>, Seq<char>>, uri: Seq<char>)
    ensures
        lookup(after_close(docs, uri), uri) is None,
{
}

/// Opening, changing or closing one document leaves every other document as
/// it was.
pub proof fn lemma_other_documents_unchanged(
    docs: Map<Seq<char>, Seq<char>>,
    uri: Seq<char>,
    other: Seq<char>,
    content: Seq<char>,
)
    requires
        uri != other,
    ensures
        lookup(after_open(docs, uri, content), other) == lookup(docs, other),
        lookup(after_change(docs, uri, content), other) == lookup(docs, other),
        lookup(after_close(docs, uri), other) == lookup(docs, other),
{
}

/// Changing a document has the same effect as opening it with the new text.
pub proof fn lemma_change_same_as_open(
    docs: Map<Seq<char>, Seq<char>>,
    uri: Seq<char>,
    content: Seq<char>,
)
    ensures
        after_change(docs, uri, content) == after_open(docs, uri, content),
{
}

/// Closing a document that was just opened forgets it again: the storage
/// reads as before the open, provided the URI was not open before.
pub proof fn lemma_close_undoes_open(
    docs: Map<Seq<char>, Seq<char>>,
    uri: Seq<char>,
    content: Seq<char>,
)
    requires
        !docs.contains_key(uri),
    ensures
        after_close(after_open(docs, uri, content), uri) == docs,
{
    assert(after_close(after_open(docs, uri, content), uri) =~= docs);
}

} // verus!
