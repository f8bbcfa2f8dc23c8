//! The unit of data that travels from resolution to delivery.

use vstd::prelude::*;

verus! {

/// Mathematical value of an [`OpenFilePayload`].
pub struct PayloadView {
    /// Canonical absolute location of the file.
    pub path: Seq<char>,
    /// Full text of the file at resolution time.
    pub content: Seq<char>,
}

/// A file that was found and read: its canonical path and its text.
///
/// The fields are private and [`OpenFilePayload::resolved`] is the only
/// constructor, so a payload exists only where both the canonical path and
/// the text were obtained.
#[derive(Debug, PartialEq, Eq)]
pub struct OpenFilePayload {
    path: String,
    content: String,
}

impl View for OpenFilePayload {
    type V = PayloadView;

    closed spec fn view(&self) -> PayloadView {
        PayloadView { path: self.path@, content: self.content@ }
    }
}

/// The payload that a lookup yields: one exists exactly when the path was
/// canonicalized and the file was read as text; it then carries both
/// unchanged.
pub open spec fn resolution(canonical: Option<Seq<char>>, text: Option<Seq<char>>) -> Option<
    PayloadView,
> {
    match (canonical, text) {
        (Some(path), Some(content)) => Some(PayloadView { path, content }),
        _ => None,
    }
}

/// The value of an optional payload.
pub open spec fn payload_view(payload: Option<OpenFilePayload>) -> Option<PayloadView> {
    match payload {
        Some(p) => Some(p@),
        None => None,
    }
}

/// The value of an optional string.
pub open spec fn text_view(text: Option<String>) -> Option<Seq<char>> {
    match text {
        Some(t) => Some(t@),
        None => None,
    }
}

impl OpenFilePayload {
    /// Builds the payload from what the file system answered for one path:
    /// `canonical` is the canonical absolute path, or `None` where the path
    /// could not be canonicalized or is not text; `text` is the content of
    /// the file, or `None` where it could not be read as text.
    ///
    /// A payload comes back exactly when both are there, and then it carries
    /// the canonical path and the text as they were given. The raw form of
    /// the path, absolute or relative, has no part in it.
    pub fn resolved(canonical: Option<String>, text: Option<String>) -> (payload: Option<Self>)
        ensures
            payload is Some <==> canonical is Some && text is Some,
            payload matches Some(p) ==> p@.path == canonical.unwrap()@ && p@.content
                == text.unwrap()@,
            payload_view(payload) == resolution(text_view(canonical), text_view(text)),
    {
        match canonical {
            Some(path) => match text {
                Some(content) => Some(OpenFilePayload { path, content }),
                None => None,
            },
            None => None,
        }
    }

    /// The canonical absolute path of the file.
    pub fn path(&self) -> (path: &str)
        ensures
            path@ == self@.path,
    {
        self.path.as_str()
    }

    /// The text of the file.
    pub fn content(&self) -> (content: &str)
        ensures
            content@ == self@.content,
    {
        self.content.as_str()
    }

    /// Gives up the payload for its path and its text, in this order.
    pub fn into_parts(self) -> (parts: (String, String))
        ensures
            parts.0@ == self@.path,
            parts.1@ == self@.content,
    {
        (self.path, self.content)
    }
}

/// Resolution keeps no state between calls: two lookups that got the same
/// answers from the file system give two payloads with the same path and the
/// same content, or both give none.
pub proof fn lemma_resolution_repeatable(
    first: Option<OpenFilePayload>,
    second: Option<OpenFilePayload>,
    canonical: Option<Seq<char>>,
    text: Option<Seq<char>>,
)
    requires
        payload_view(first) == resolution(canonical, text),
        payload_view(second) == resolution(canonical, text),
    ensures
        first is Some <==> second is Some,
        first is Some ==> first.unwrap()@.path == second.unwrap()@.path,
        first is Some ==> first.unwrap()@.content == second.unwrap()@.content,
{
}

impl Clone for OpenFilePayload {
    fn clone(&self) -> (copy: Self)
        ensures
            copy@ == self@,
    {
        OpenFilePayload { path: self.path.clone(), content: self.content.clone() }
    }
}

} // verus!
