//! Evidence of what the user has been doing, out of the replies of context tools.
use vstd::prelude::*;

use crate::json::{
    held, holding, json_contents, json_text, leaf_at, leaf_truth, lemma_found, member, render,
    string_of, truth_of, Key, Leaf,
};
use crate::quest::Quest;
use crate::text::{concat2, cut, fitting, same, text_of, trim, trim_owned, trimmed};

verus! {

/// How many minutes of recent activity the judge sees.
pub const CONTEXT_MINUTES: u32 = 15;

/// How many hits of related history the judge sees.
pub const SEARCH_LIMIT: u32 = 5;

/// The most bytes of gathered evidence handed to the judge.
pub const MAX_EVIDENCE_BYTES: u32 = 4000;

/// A call of a context tool.
#[derive(Debug, PartialEq, Eq)]
pub enum ToolCall {
    /// A summary of the last minutes.
    RecentContext { minutes: u32 },
    /// A search of the history.
    SemanticSearch { query: String, limit: u32 },
}

impl ToolCall {
    /// The name of the tool.
    pub fn tool(&self) -> (r: &'static str)
        ensures
            r@ == (match *self {
                ToolCall::RecentContext { .. } => "shadow__recent_context"@,
                ToolCall::SemanticSearch { .. } => "shadow__semantic_search"@,
            }),
    {
        match self {
            ToolCall::RecentContext { .. } => "shadow__recent_context",
            ToolCall::SemanticSearch { .. } => "shadow__semantic_search",
        }
    }
}

/// The call for a summary of recent activity.
pub fn recent_call() -> (r: ToolCall)
    ensures
        r == (ToolCall::RecentContext { minutes: CONTEXT_MINUTES }),
{
    ToolCall::RecentContext { minutes: CONTEXT_MINUTES }
}

/// The search of the history for the title of a quest.
pub fn search_call(quest: &Quest) -> (r: ToolCall)
    ensures
        match r {
            ToolCall::SemanticSearch { query, limit } => query@ == trimmed(quest@.title) && limit
                == SEARCH_LIMIT,
            ToolCall::RecentContext { .. } => false,
        },
{
    ToolCall::SemanticSearch { query: trim_owned(quest.title.as_str()), limit: SEARCH_LIMIT }
}

// ---- replies -------------------------------------------------------------------------
/// A field of a tool's reply, as far as it matters.
#[derive(Debug, PartialEq, Eq)]
pub enum Field {
    /// The reply has no such field.
    Absent,
    /// A string.
    Text(String),
    /// Anything else.
    Other,
}

/// A field of a tool's reply, as text.
pub enum FieldView {
    Absent,
    Text(Seq<char>),
    Other,
}

impl View for Field {
    type V = FieldView;

    open spec fn view(&self) -> FieldView {
        match *self {
            Field::Absent => FieldView::Absent,
            Field::Text(t) => FieldView::Text(t@),
            Field::Other => FieldView::Other,
        }
    }
}

/// A tool's reply, as far as it matters.
#[derive(Debug, PartialEq, Eq)]
pub struct ToolReply {
    /// The field `available`, where it is a truth value.
    pub available: Option<bool>,
    pub summary: Field,
    pub text: Field,
    pub context: Field,
    /// The whole reply, as compact JSON.
    pub rendered: String,
}

/// A tool's reply, as text.
pub struct ToolReplyView {
    pub available: Option<bool>,
    pub summary: FieldView,
    pub text: FieldView,
    pub context: FieldView,
    pub rendered: Seq<char>,
}

impl View for ToolReply {
    type V = ToolReplyView;

    open spec fn view(&self) -> ToolReplyView {
        ToolReplyView {
            available: self.available,
            summary: self.summary@,
            text: self.text@,
            context: self.context@,
            rendered: self.rendered@,
        }
    }
}

/// The field of a reply under a key.
pub open spec fn field_in(contents: Map<Seq<Key>, Leaf>, key: Seq<char>) -> FieldView {
    match leaf_at(contents, seq![Key::Member(key)]) {
        Some(Leaf::Text(t)) => FieldView::Text(t),
        Some(_) => FieldView::Other,
        None => FieldView::Absent,
    }
}

/// The reply that a JSON value holds.
pub open spec fn reply_in(contents: Map<Seq<Key>, Leaf>) -> ToolReplyView {
    ToolReplyView {
        available: match leaf_at(contents, seq![Key::Member("available"@)]) {
            Some(leaf) => leaf_truth(leaf),
            None => None,
        },
        summary: field_in(contents, "summary"@),
        text: field_in(contents, "text"@),
        context: field_in(contents, "context"@),
        rendered: json_text(contents),
    }
}

/// Reads the field of a reply under a key.
fn read_field(value: &serde_json::Value, key: &str) -> (r: Field)
    ensures
        r@ == field_in(json_contents(*value), key@),
{
    let found = member(value, key);
    proof {
        lemma_found(json_contents(*value), Key::Member(key@), held(found));
    }
    match found {
        Some(inner) => match string_of(inner) {
            Some(text) => Field::Text(text),
            None => Field::Other,
        },
        None => Field::Absent,
    }
}

/// Reads a tool's reply.
pub fn read_tool_reply(value: &serde_json::Value) -> (r: ToolReply)
    ensures
        r@ == reply_in(json_contents(*value)),
{
    let found = member(value, "available");
    proof {
        lemma_found(json_contents(*value), Key::Member("available"@), held(found));
    }
    let available = match found {
        Some(inner) => truth_of(inner),
        None => None,
    };
    ToolReply {
        available,
        summary: read_field(value, "summary"),
        text: read_field(value, "text"),
        context: read_field(value, "context"),
        rendered: render(value),
    }
}

// ---- evidence ------------------------------------------------------------------------
/// The first of three fields that is there.
pub open spec fn first_present(
    first: FieldView,
    second: FieldView,
    third: FieldView,
) -> FieldView {
    if !(first is Absent) {
        first
    } else if !(second is Absent) {
        second
    } else {
        third
    }
}

/// The content of a reply: the first of its summary, text and context that is there,
/// where that is a string, else the whole reply. Nothing where the tool was
/// unavailable or the content is empty.
pub open spec fn usable(reply: ToolReplyView) -> Option<Seq<char>> {
    let content = match first_present(reply.summary, reply.text, reply.context) {
        FieldView::Text(t) => trimmed(t),
        _ => trimmed(reply.rendered),
    };
    if reply.available == Some(false) || content.len() == 0 || content == "{}"@ || content
        == "null"@ {
        None
    } else {
        Some(content)
    }
}

/// The content of a tool's reply; nothing for the `available: false` envelope of a
/// tool that is down and for an empty reply.
pub fn usable_text(reply: &ToolReply) -> (r: Option<String>)
    ensures
        text_of(r) == usable(reply@),
{
    if reply.available == Some(false) {
        return None;
    }
    let content = match &reply.summary {
        Field::Text(t) => t.as_str(),
        Field::Other => reply.rendered.as_str(),
        Field::Absent => match &reply.text {
            Field::Text(t) => t.as_str(),
            Field::Other => reply.rendered.as_str(),
            Field::Absent => match &reply.context {
                Field::Text(t) => t.as_str(),
                Field::Other => reply.rendered.as_str(),
                Field::Absent => reply.rendered.as_str(),
            },
        },
    };
    let text = trim(content);
    if text.is_empty() || same(text, "{}") || same(text, "null") {
        None
    } else {
        Some(text.to_owned())
    }
}

/// The evidence made of recent activity and related history, where there is either.
pub open spec fn evidence_of(
    recent: Option<Seq<char>>,
    related: Option<Seq<char>>,
) -> Option<Seq<char>> {
    match (recent, related) {
        (Some(a), Some(b)) => Some(
            "Recent activity:\n"@ + a + "\n\n"@ + ("Related history:\n"@ + b),
        ),
        (Some(a), None) => Some("Recent activity:\n"@ + a),
        (None, Some(b)) => Some("Related history:\n"@ + b),
        (None, None) => None,
    }
}

/// The evidence as the judge sees it: as much of it as fits.
pub open spec fn shown_evidence(
    recent: Option<Seq<char>>,
    related: Option<Seq<char>>,
) -> Option<Seq<char>> {
    match evidence_of(recent, related) {
        Some(text) => Some(fitting(text, MAX_EVIDENCE_BYTES as nat)),
        None => None,
    }
}

/// Combines recent activity with related history.
pub fn combine(recent: Option<String>, related: Option<String>) -> (r: Option<String>)
    ensures
        text_of(r) == shown_evidence(text_of(recent), text_of(related)),
{
    let whole = match (recent, related) {
        (Some(a), Some(b)) => {
            let first = concat2(concat2("Recent activity:\n", a.as_str()).as_str(), "\n\n");
            let second = concat2("Related history:\n", b.as_str());
            concat2(first.as_str(), second.as_str())
        },
        (Some(a), None) => concat2("Recent activity:\n", a.as_str()),
        (None, Some(b)) => concat2("Related history:\n", b.as_str()),
        (None, None) => return None,
    };
    Some(cut(whole.as_str(), MAX_EVIDENCE_BYTES))
}

/// The content of a tool's reply, by what the reply holds, where there is one.
pub open spec fn content_of(reply: Option<Map<Seq<Key>, Leaf>>) -> Option<Seq<char>> {
    match reply {
        Some(contents) => usable(reply_in(contents)),
        None => None,
    }
}

/// The content of a tool's reply, where there is one.
fn reply_text(reply: &Option<serde_json::Value>) -> (r: Option<String>)
    ensures
        text_of(r) == content_of(holding(*reply)),
{
    match reply {
        Some(value) => usable_text(&read_tool_reply(value)),
        None => None,
    }
}

/// Gathers evidence from the replies to [`recent_call`] and [`search_call`], each there
/// where the tool was. Nothing where neither has anything to offer: an empty context is
/// not judged.
pub fn gather_context(
    recent: &Option<serde_json::Value>,
    semantic: &Option<serde_json::Value>,
) -> (r: Option<String>)
    ensures
        text_of(r) == shown_evidence(
            content_of(holding(*recent)),
            content_of(holding(*semantic)),
        ),
{
    combine(reply_text(recent), reply_text(semantic))
}

/// Evidence never exceeds its bound in bytes, and it is the longest beginning that
/// does not: no character is cut in two.
pub proof fn evidence_fits(recent: Option<Seq<char>>, related: Option<Seq<char>>)
    requires
        evidence_of(recent, related) is Some,
    ensures
        ({
            let whole = evidence_of(recent, related)->0;
            let shown = shown_evidence(recent, related)->0;
            &&& shown.is_prefix_of(whole)
            &&& vstd::utf8::encode_utf8(shown).len() <= MAX_EVIDENCE_BYTES
            &&& vstd::utf8::encode_utf8(whole).len() <= MAX_EVIDENCE_BYTES ==> shown == whole
            &&& shown.len() < whole.len() ==> vstd::utf8::encode_utf8(shown).len()
                + vstd::utf8::encode_utf8(seq![whole[shown.len() as int]]).len()
                > MAX_EVIDENCE_BYTES
        }),
{
    let whole = evidence_of(recent, related)->0;
    crate::text::fitting_is_longest(whole, MAX_EVIDENCE_BYTES as nat);
    crate::text::byte_len_counts_utf8(fitting(whole, MAX_EVIDENCE_BYTES as nat));
    crate::text::byte_len_counts_utf8(whole);
    let shown = fitting(whole, MAX_EVIDENCE_BYTES as nat);
    if shown.len() < whole.len() {
        let next = seq![whole[shown.len() as int]];
        crate::text::byte_len_counts_utf8(next);
        assert(next.skip(1) == Seq::<char>::empty());
        assert(crate::text::byte_len(next) == crate::text::width(next[0])) by {
            reveal_with_fuel(crate::text::byte_len, 2);
        }
    }
}

} // verus!
