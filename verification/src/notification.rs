//! The notifications that keep the stored documents in step with the
//! client's editor.
use crate::document_storage::{after_change, after_close, after_open, DocumentStorage};
use crate::methods::{notification_kind, NotificationKind};
use vstd::prelude::*;

verus! {

/// One change of a document's text, as the client sends it.
pub enum ContentChange {
    /// The new whole text of the document.
    WholeDocument { text: String },
    /// An edit of a range of the text.
    Partial,
}

/// The parameters of `textDocument/didOpen`.
pub struct DidOpenParams {
    pub uri: String,
    pub text: String,
}

/// The parameters of `textDocument/didChange`.
pub struct DidChangeParams {
    pub uri: String,
    pub content_changes: Vec<ContentChange>,
}

/// The parameters of `textDocument/didClose`.
pub struct DidCloseParams {
    pub uri: String,
}

/// A notification's parameters read as each of the shapes the server may
/// need: each is `None` when they do not have that shape.
pub struct NotificationParams {
    pub did_open: Option<DidOpenParams>,
    pub did_change: Option<DidChangeParams>,
    pub did_close: Option<DidCloseParams>,
}

/// A notification from the client: its method and its parameters.
pub struct Notification {
    pub method: String,
    pub params: NotificationParams,
}

/// Why a notification could not be handled.
#[derive(Debug)]
pub enum NotificationError {
    /// The parameters do not have the shape that the method needs.
    InvalidParams,
}

/// The documents after a notification, or `None` when it fails: `didOpen`
/// stores the text, `didChange` stores the new text when the first change
/// is of the whole document, `didClose` forgets the document, and any other
/// method changes nothing.
pub open spec fn notification_outcome(
    docs: Map<Seq<char>, Seq<char>>,
    method: Seq<char>,
    params: NotificationParams,
) -> Option<Map<Seq<char>, Seq<char>>> {
    if method == "textDocument/didOpen"@ {
        match params.did_open {
            Some(p) => Some(after_open(docs, p.uri@, p.text@)),
            None => None,
        }
    } else if method == "textDocument/didChange"@ {
        match params.did_change {
            Some(p) => Some(
                if p.content_changes@.len() > 0 && p.content_changes@[0] is WholeDocument {
                    after_change(docs, p.uri@, p.content_changes@[0]->text@)
                } else {
                    docs
                },
            ),
            None => None,
        }
    } else if method == "textDocument/didClose"@ {
        match params.did_close {
            Some(p) => Some(after_close(docs, p.uri@)),
            None => None,
        }
    } else {
        Some(docs)
    }
}

/// A notification changes at most the document it names: every document
/// under another URI reads the same after it as before.
pub proof fn lemma_notification_keeps_other_documents(
    docs: Map<Seq<char>, Seq<char>>,
    method: Seq<char>,
    params: NotificationParams,
    other: Seq<char>,
)
    requires
        method == "textDocument/didOpen"@ && params.did_open is Some ==> params.did_open->0.uri@
            != other,
        method == "textDocument/didChange"@ && params.did_change is Some
            ==> params.did_change->0.uri@ != other,
        method == "textDocument/didClose"@ && params.did_close is Some ==> params.did_close->0.uri@
            != other,
    ensures
        notification_outcome(docs, method, params) matches Some(after) ==> (docs.contains_key(other)
            <==> after.contains_key(other)) && (docs.contains_key(other) ==> after[other]
            == docs[other]),
{
}

/// What a notification does to the document it names: `didOpen` stores its
/// text, `didChange` with a whole new text stores that text, and `didClose`
/// forgets the document.
pub proof fn lemma_notification_sets_named_document(
    docs: Map<Seq<char>, Seq<char>>,
    method: Seq<char>,
    params: NotificationParams,
)
    ensures
        method == "textDocument/didOpen"@ && params.did_open is Some ==> (notification_outcome(
            docs,
            method,
            params,
        ) matches Some(after) && after.contains_key(params.did_open->0.uri@)
            && after[params.did_open->0.uri@] == params.did_open->0.text@),
        method == "textDocument/didChange"@ && params.did_change is Some
            && params.did_change->0.content_changes@.len() > 0
            && params.did_change->0.content_changes@[0] is WholeDocument ==> (notification_outcome(
            docs,
            method,
            params,
        ) matches Some(after) && after.contains_key(params.did_change->0.uri@)
            && after[params.did_change->0.uri@]
            == params.did_change->0.content_changes@[0]->text@),
        method == "textDocument/didClose"@ && params.did_close is Some ==> (notification_outcome(
            docs,
            method,
            params,
        ) matches Some(after) && !after.contains_key(params.did_close->0.uri@)),
{
    reveal_strlit("textDocument/didOpen");
    reveal_strlit("textDocument/didChange");
    reveal_strlit("textDocument/didClose");
    assert("textDocument/didOpen"@.len() != "textDocument/didChange"@.len());
    assert("textDocument/didOpen"@.len() != "textDocument/didClose"@.len());
    assert("textDocument/didChange"@.len() != "textDocument/didClose"@.len());
}

/// The handling of a notification.
pub trait NotificationHandle {
    fn handle(&mut self) -> Result<(), NotificationError>;
}

/// A notification bound to the documents it acts on.
pub struct UnityNotification<'a> {
    pub notification: &'a Notification,
    pub docs: &'a mut DocumentStorage,
}

impl<'a> UnityNotification<'a> {
    pub fn new(notification: &'a Notification, docs: &'a mut DocumentStorage) -> (n: Self)
        ensures
            n.notification() == notification,
            n.documents() == *old(docs),
            *final(docs) == *final(n.docs),
    {
        UnityNotification { notification, docs }
    }

    pub open spec fn notification(&self) -> &'a Notification {
        self.notification
    }

    pub open spec fn documents(&self) -> DocumentStorage {
        *self.docs
    }
}

impl<'a> NotificationHandle for UnityNotification<'a> {
    /// Applies the notification to the documents; on failure they stay as
    /// they were.
    fn handle(&mut self) -> (r: Result<(), NotificationError>)
        ensures
            final(self).notification() == old(self).notification(),
            *final(final(self).docs) == *final(old(self).docs),
            match r {
                Ok(()) => notification_outcome(
                    old(self).documents()@,
                    old(self).notification().method@,
                    old(self).notification().params,
                ) == Some(final(self).documents()@),
                Err(_) => notification_outcome(
                    old(self).documents()@,
                    old(self).notification().method@,
                    old(self).notification().params,
                ) is None && final(self).documents()@ == old(self).documents()@,
            },
    {
        let notification = self.notification;
        let params = &notification.params;
        match notification_kind(notification.method.as_str()) {
            NotificationKind::DidOpen => match &params.did_open {
                Some(p) => {
                    self.docs.open(p.uri.clone(), p.text.clone());
                    Ok(())
                },
                None => Err(NotificationError::InvalidParams),
            },
            NotificationKind::DidChange => match &params.did_change {
                Some(p) => {
                    if p.content_changes.len() > 0 {
                        match &p.content_changes[0] {
                            ContentChange::WholeDocument { text } => {
                                self.docs.change(p.uri.clone(), text.clone());
                            },
                            ContentChange::Partial => {},
                        }
                    }
                    Ok(())
                },
                None => Err(NotificationError::InvalidParams),
            },
            NotificationKind::DidClose => match &params.did_close {
                Some(p) => {
                    self.docs.close(p.uri.as_str());
                    Ok(())
                },
                None => Err(NotificationError::InvalidParams),
            },
            NotificationKind::Other => Ok(()),
        }
    }
}

/// Handles a notification on the caller's storage: it fails exactly when the
/// notification has no outcome (its parameters do not decode), and then the
/// storage is unchanged; otherwise the storage holds what the notification
/// makes of it.
pub fn apply_notification(docs: &mut DocumentStorage, notification: &Notification) -> (r: Result<
    (),
    NotificationError,
>)
    ensures
        match r {
            Ok(()) => notification_outcome(old(docs)@, notification.method@, notification.params)
                == Some(final(docs)@),
            Err(_) => notification_outcome(old(docs)@, notification.method@, notification.params)
                is None && final(docs)@ == old(docs)@,
        },
{
    let mut handler = UnityNotification::new(notification, docs);
    let r = handler.handle();
    assert(has_resolved(handler));
    assert(has_resolved(handler.docs));
    r
}

} // verus!

