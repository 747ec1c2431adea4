//! The navigation handoff channel: the currently displayed document's
//! content and location, plus an optional staged "pending navigation"
//! that is written by the navigation resolver and taken, at most once,
//! at the start of the next event-processing cycle.

use vstd::prelude::*;

verus! {

/// The mathematical model of [`NavigationState`]: character sequences in
/// place of strings. `pending_navigation` being an `Option` makes "at
/// most one pending navigation at any instant" hold by construction.
pub struct NavModel {
    pub current_html: Seq<char>,
    pub current_url: Seq<char>,
    pub pending_navigation: Option<(Seq<char>, Seq<char>)>,
}

/// Shared record for the navigation handoff: the content and location of
/// the document on display, and the staged navigation, if any, awaiting
/// the next cycle. The pending pair is (content, location).
pub struct NavigationState {
    current_html: String,
    current_url: String,
    pending_navigation: Option<(String, String)>,
}

impl View for NavigationState {
    type V = NavModel;

    closed spec fn view(&self) -> NavModel {
        NavModel {
            current_html: self.current_html@,
            current_url: self.current_url@,
            pending_navigation: match self.pending_navigation {
                Some((html, url)) => Some((html@, url@)),
                None => None,
            },
        }
    }
}

/// A freshly seeded state: the given content and location on display,
/// nothing pending.
pub open spec fn init_model(html: Seq<char>, url: Seq<char>) -> NavModel {
    NavModel { current_html: html, current_url: url, pending_navigation: None }
}

/// Staging a navigation overwrites whatever was pending — last write
/// wins, no queueing — and leaves the displayed content and location
/// alone.
pub open spec fn stage_model(m: NavModel, html: Seq<char>, url: Seq<char>) -> NavModel {
    NavModel { pending_navigation: Some((html, url)), ..m }
}

/// Taking the pending navigation clears it; the displayed content and
/// location are untouched until the taken pair is applied.
pub open spec fn clear_pending_model(m: NavModel) -> NavModel {
    NavModel { pending_navigation: None, ..m }
}

/// Applying a navigation replaces the displayed content and location
/// wholesale; what is pending is not touched here.
pub open spec fn set_current_model(m: NavModel, html: Seq<char>, url: Seq<char>) -> NavModel {
    NavModel { current_html: html, current_url: url, ..m }
}

impl NavigationState {
    /// Seed the channel with the initial content and location.
    pub fn new(html: String, url: String) -> (s: Self)
        ensures
            s@ == init_model(html@, url@),
    {
        Self { current_html: html, current_url: url, pending_navigation: None }
    }

    /// Stage a resolved navigation for the next cycle, discarding any
    /// navigation that was pending and not yet applied.
    pub fn stage_pending(&mut self, html: String, url: String)
        ensures
            final(self)@ == stage_model(old(self)@, html@, url@),
    {
        self.pending_navigation = Some((html, url));
    }

    /// Atomically read and clear the pending navigation; the start of
    /// each event-processing cycle calls this, so a staged pair is
    /// observed at most once.
    pub fn take_pending(&mut self) -> (p: Option<(String, String)>)
        ensures
            final(self)@ == clear_pending_model(old(self)@),
            match p {
                Some(pair) => old(self)@.pending_navigation == Some((pair.0@, pair.1@)),
                None => old(self)@.pending_navigation is None,
            },
    {
        self.pending_navigation.take()
    }

    /// Record that the document was replaced: the given content and
    /// location are now the ones on display.
    pub fn set_current(&mut self, html: &str, url: &str)
        ensures
            final(self)@ == set_current_model(old(self)@, html@, url@),
    {
        self.current_html = html.to_owned();
        self.current_url = url.to_owned();
    }

    /// The content of the document on display.
    pub fn current_html(&self) -> (r: &String)
        ensures
            r@ == self@.current_html,
    {
        &self.current_html
    }

    /// The location of the document on display.
    pub fn current_url(&self) -> (r: &String)
        ensures
            r@ == self@.current_url,
    {
        &self.current_url
    }

    /// Whether a navigation is staged and not yet applied.
    pub fn has_pending(&self) -> (r: bool)
        ensures
            r == (self@.pending_navigation is Some),
    {
        self.pending_navigation.is_some()
    }
}

/// Last write wins: staging two navigations without an intervening
/// cycle start leaves exactly the second one pending — the first pair is
/// never observed — and the next cycle start, which takes the pending
/// pair, clears the slot and applies it, displays the second's content
/// and location with nothing left pending.
pub proof fn lemma_pending_last_write_wins(
    m: NavModel,
    html1: Seq<char>,
    url1: Seq<char>,
    html2: Seq<char>,
    url2: Seq<char>,
)
    ensures
        ({
            let staged = stage_model(stage_model(m, html1, url1), html2, url2);
            let applied = set_current_model(clear_pending_model(staged), html2, url2);
            staged.pending_navigation == Some((html2, url2)) && applied == (NavModel {
                current_html: html2,
                current_url: url2,
                pending_navigation: None,
            })
        }),
{
}

} // verus!
