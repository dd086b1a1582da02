//! The footer of the tag editor: a line of hints on the keys that work there.

use vstd::prelude::*;
use vstd::string::StringExecFns;

verus! {

/// One stretch of the footer's text: plain, or set off as a key.
#[derive(Debug, Clone, PartialEq, Eq)]
pub struct FooterSpan {
    pub text: String,
    /// Shown in bold and in the highlight color.
    pub key: bool,
}

/// Mathematical value of a [`FooterSpan`].
pub struct FooterSpanView {
    pub text: Seq<char>,
    pub key: bool,
}

impl View for FooterSpan {
    type V = FooterSpanView;

    open spec fn view(&self) -> FooterSpanView {
        FooterSpanView { text: self.text@, key: self.key }
    }
}

impl DeepView for FooterSpan {
    type V = FooterSpanView;

    open spec fn deep_view(&self) -> FooterSpanView {
        self.view()
    }
}

/// A plain stretch of text.
pub open spec fn plain(text: Seq<char>) -> FooterSpanView {
    FooterSpanView { text, key: false }
}

/// A key, in angle brackets.
pub open spec fn key(name: Seq<char>) -> FooterSpanView {
    FooterSpanView { text: "<"@ + name + ">"@, key: true }
}

/// The footer's text, given the keys that save the tag and leave the editor.
pub open spec fn footer_spans(save: Seq<char>, escape: Seq<char>) -> Seq<FooterSpanView> {
    seq![
        plain(" Save tag: "@),
        key(save),
        plain(" Exit: "@),
        key(escape),
        plain(" Change field: "@),
        key("Tab/ShiftTab"@),
        plain(" Search/Embed tag: "@),
        key("ENTER"@),
    ]
}

/// The footer of the tag editor.
#[derive(Debug, Clone, PartialEq, Eq)]
pub struct TEFooter {
    pub spans: Vec<FooterSpan>,
}

fn plain_span(text: &str) -> (span: FooterSpan)
    ensures
        span@ == plain(text@),
{
    FooterSpan { text: text.to_owned(), key: false }
}

fn key_span(name: &str) -> (span: FooterSpan)
    ensures
        span@ == key(name@),
{
    let mut text = "<".to_owned();
    text.append(name);
    text.append(">");
    FooterSpan { text, key: true }
}

impl TEFooter {
    /// The footer for the keys `save` and `escape`, as the key bindings name them.
    pub fn new(save: &str, escape: &str) -> (footer: Self)
        ensures
            footer.spans.deep_view() == footer_spans(save@, escape@),
    {
        let mut spans: Vec<FooterSpan> = Vec::new();
        spans.push(plain_span(" Save tag: "));
        spans.push(key_span(save));
        spans.push(plain_span(" Exit: "));
        spans.push(key_span(escape));
        spans.push(plain_span(" Change field: "));
        spans.push(key_span("Tab/ShiftTab"));
        spans.push(plain_span(" Search/Embed tag: "));
        spans.push(key_span("ENTER"));
        assert(spans.deep_view() =~= footer_spans(save@, escape@));
        TEFooter { spans }
    }
}

} // verus!
