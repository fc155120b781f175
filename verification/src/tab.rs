//! The browser tab that the client sees as a text buffer.
//!
//! The buffer of a tab is its URL, a blank line, and its body.

use vstd::prelude::*;

verus! {

/// A tab: the page it shows and whether a browser is connected to it.
pub struct BrowserTab {
    pub url: String,
    pub body: String,
    pub connected: bool,
}

/// A tab as plain values.
pub struct TabView {
    pub url: Seq<char>,
    pub body: Seq<char>,
    pub connected: bool,
}

impl View for BrowserTab {
    type V = TabView;

    open spec fn view(&self) -> TabView {
        TabView { url: self.url@, body: self.body@, connected: self.connected }
    }
}

/// A tab that no browser is connected to: no URL and no body yet.
pub open spec fn unconnected_tab() -> TabView {
    TabView { url: Seq::empty(), body: Seq::empty(), connected: false }
}

/// The text of a tab's buffer: the URL, a blank line, then the body.
pub open spec fn tab_text(t: TabView) -> Seq<char> {
    t.url + "\n\n"@ + t.body
}

/// The buffer of a tab starts with its URL, then two line feeds, and ends
/// with its whole body; it is exactly that long.
pub proof fn lemma_tab_text_parts(t: TabView)
    ensures
        tab_text(t).len() == t.url.len() + 2 + t.body.len(),
        tab_text(t).subrange(0, t.url.len() as int) == t.url,
        tab_text(t)[t.url.len() as int] == '\n',
        tab_text(t)[t.url.len() + 1int] == '\n',
        tab_text(t).subrange(t.url.len() + 2int, tab_text(t).len() as int) == t.body,
        t.body.is_suffix_of(tab_text(t)),
{
    reveal_strlit("\n\n");
    let s = tab_text(t);
    assert(s.subrange(0, t.url.len() as int) =~= t.url);
    assert(s.subrange(t.url.len() + 2int, s.len() as int) =~= t.body);
    assert(t.body.is_suffix_of(s)) by {
        assert(s.subrange(s.len() - t.body.len(), s.len() as int) =~= t.body);
    }
}

impl BrowserTab {
    /// A tab that no browser is connected to.
    pub fn unconnected() -> (t: BrowserTab)
        ensures
            t@ == unconnected_tab(),
    {
        BrowserTab { url: String::new(), body: String::new(), connected: false }
    }

    /// The text of the tab's buffer.
    pub fn text(&self) -> (s: String)
        ensures
            s@ == tab_text(self@),
            s@ == self.url@ + seq!['\n', '\n'] + self.body@,
    {
        let mut s = self.url.clone();
        s.append("\n\n");
        s.append(self.body.as_str());
        proof { reveal_strlit("\n\n"); }
        assert(s@ =~= self.url@ + seq!['\n', '\n'] + self.body@);
        s
    }
}

} // verus!
