use vstd::prelude::*;
use vstd::string::StringExecFns;
use crate::snippet::{Snippet, SnippetModel, models, rendered};
use crate::store::{SnippetFile, saved, loaded, lemma_save_load_round_trip};
use crate::text::{has_infix, contains_text};

verus! {

/// Whether a snippet passes the search text: it occurs in the command or in
/// the description, case counting.
pub open spec fn matches_query(m: SnippetModel, q: Seq<char>) -> bool {
    has_infix(m.cmd, q) || has_infix(m.description, q)
}

/// The positions in `s` of the snippets that pass the search text `q`, in
/// order: the list that is on display.
pub open spec fn shown(s: Seq<SnippetModel>, q: Seq<char>) -> Seq<int>
    decreases s.len(),
{
    if s.len() == 0 {
        Seq::empty()
    } else {
        let rest = shown(s.drop_last(), q);
        if matches_query(s.last(), q) {
            rest.push(s.len() - 1)
        } else {
            rest
        }
    }
}

/// Every shown position is a position of `s`, and no more are shown than `s` has.
pub proof fn lemma_shown_positions(s: Seq<SnippetModel>, q: Seq<char>)
    ensures
        shown(s, q).len() <= s.len(),
        forall|k: int| 0 <= k < shown(s, q).len() ==> 0 <= #[trigger] shown(s, q)[k] < s.len(),
    decreases s.len(),
{
    if s.len() > 0 {
        lemma_shown_positions(s.drop_last(), q);
    }
}

/// With an empty search text every snippet is on display, in order.
pub proof fn lemma_empty_search_shows_all(s: Seq<SnippetModel>, q: Seq<char>)
    requires
        q.len() == 0,
    ensures
        shown(s, q) == Seq::new(s.len(), |i: int| i),
    decreases s.len(),
{
    if s.len() > 0 {
        lemma_empty_search_shows_all(s.drop_last(), q);
        assert(s.last().cmd.subrange(0, 0 + q.len() as int) =~= q);
        assert(matches_query(s.last(), q));
        assert(shown(s, q) =~= Seq::new(s.len(), |i: int| i));
    } else {
        assert(shown(s, q) =~= Seq::new(s.len(), |i: int| i));
    }
}

/// The selection after a step forward through a list of `len` entries: the
/// first entry where none was selected, the next one, or the last one kept.
pub open spec fn next_selection(sel: Option<usize>, len: int) -> Option<usize> {
    match sel {
        None => if len > 0 { Some(0usize) } else { None },
        Some(i) => if i + 1 < len { Some((i + 1) as usize) } else { Some(i) },
    }
}

/// The selection after a step back through a list of `len` entries: the
/// first entry where none was selected, the previous one, or the first kept.
pub open spec fn previous_selection(sel: Option<usize>, len: int) -> Option<usize> {
    match sel {
        None => if len > 0 { Some(0usize) } else { None },
        Some(i) => if i > 0 { Some((i - 1) as usize) } else { Some(i) },
    }
}

/// The selection kept within a list of `len` entries once that list has
/// changed: kept where it still fits, else moved to the last entry, and
/// none where the list is empty.
pub open spec fn clamped_selection(sel: Option<usize>, len: int) -> Option<usize> {
    match sel {
        None => None,
        Some(i) => if i < len { Some(i) } else if len > 0 { Some((len - 1) as usize) } else { None },
    }
}

/// The selection that a fresh list starts with: its first entry, if any.
pub open spec fn first_selection(len: int) -> Option<usize> {
    if len > 0 { Some(0usize) } else { None }
}

/// The two modes of the application. The editor buffer exists only while
/// editing, so that it is present exactly when the mode is `Editing`.
#[derive(Debug)]
pub enum Mode {
    /// Navigating and filtering the list; no record is changed.
    Browsing,
    /// Composing a snippet: `buffer` holds the text, `target` the position
    /// of the snippet that is edited, or none for a new one.
    Editing { buffer: String, target: Option<usize> },
}

/// The text of an application's editor, present exactly while editing.
pub open spec fn editor_of(mode: Mode) -> Option<Seq<char>> {
    match mode {
        Mode::Editing { buffer, .. } => Some(buffer@),
        Mode::Browsing => None,
    }
}

/// The state of the snippet manager.
#[derive(Debug)]
pub struct App {
    /// Set once the snippet list has been written on quitting; never cleared.
    pub quit: bool,
    /// Set by the terminal layer once the terminal is back in its own mode.
    pub terminal_restored: bool,
    pub mode: Mode,
    /// A message for the user, until dismissed or a later edit succeeds.
    pub error_msg: Option<String>,
    /// The search text that filters the list on display.
    pub search: String,
    /// All snippets, in the order in which they are saved.
    pub snippets: Vec<Snippet>,
    /// The selected position within the list on display.
    pub state: Option<usize>,
}

/// The message shown when the editor's text is not a snippet.
pub open spec fn parse_error_message() -> Seq<char> {
    "the text is not a snippet: it needs priority, cmd and description"@
}

impl App {
    /// The positions in `snippets` of the entries on display.
    pub open spec fn shown_view(&self) -> Seq<int> {
        shown(models(self.snippets@), self.search@)
    }

    /// The application is editing.
    pub open spec fn editing(&self) -> bool {
        self.mode is Editing
    }

    /// The selection lies within the list on display, and an edited snippet
    /// lies within the snippets.
    pub open spec fn wf(&self) -> bool {
        &&& match self.state {
            Some(i) => i < self.shown_view().len(),
            None => true,
        }
        &&& match self.mode {
            Mode::Editing { target: Some(t), .. } => t < self.snippets@.len(),
            _ => true,
        }
    }

    /// A browsing application with no snippets, an empty search text and no
    /// selection.
    pub fn new() -> (r: App)
        ensures
            r.wf(),
            !r.quit,
            !r.terminal_restored,
            r.mode is Browsing,
            r.error_msg is None,
            r.search@.len() == 0,
            r.snippets@.len() == 0,
            r.state is None,
    {
        App {
            quit: false,
            terminal_restored: false,
            mode: Mode::Browsing,
            error_msg: None,
            search: String::new(),
            snippets: Vec::new(),
            state: None,
        }
    }

    /// Takes the loaded snippets and selects the first entry on display, if
    /// any. An edit under way goes on with its text; where the position it
    /// edits no longer lies within the new list, it becomes the edit of a
    /// new snippet.
    pub fn init(&mut self, snippets: Vec<Snippet>)
        ensures
            final(self).wf(),
            final(self).snippets@ == snippets@,
            match old(self).mode {
                Mode::Editing { buffer, target: Some(t) } => if t < snippets@.len() {
                    final(self).mode == old(self).mode
                } else {
                    final(self).mode matches Mode::Editing { buffer: b, target: None } && b == buffer
                },
                _ => final(self).mode == old(self).mode,
            },
            final(self).state == first_selection(final(self).shown_view().len() as int),
            final(self).search@ == old(self).search@,
            final(self).quit == old(self).quit,
            final(self).terminal_restored == old(self).terminal_restored,
            final(self).error_msg == old(self).error_msg,
    {
        self.snippets = snippets;
        let len = self.snippets.len();
        if let Mode::Editing { target, .. } = &mut self.mode {
            if let Some(t) = *target {
                if t >= len {
                    *target = None;
                }
            }
        }
        let n = self.visible().len();
        self.state = if n > 0 { Some(0) } else { None };
    }

    /// Whether the application is editing.
    pub fn is_editing(&self) -> (r: bool)
        ensures
            r == self.editing(),
    {
        match self.mode {
            Mode::Editing { .. } => true,
            Mode::Browsing => false,
        }
    }

    /// The editor's text, present exactly while editing.
    pub fn editor(&self) -> (r: Option<&String>)
        ensures
            match r {
                Some(b) => editor_of(self.mode) == Some(b@),
                None => editor_of(self.mode) is None,
            },
    {
        match &self.mode {
            Mode::Editing { buffer, .. } => Some(buffer),
            Mode::Browsing => None,
        }
    }

    /// The positions in `snippets` of the entries on display, in order.
    pub fn visible(&self) -> (r: Vec<usize>)
        ensures
            r@.map_values(|i: usize| i as int) == self.shown_view(),
    {
        let ghost all = models(self.snippets@);
        let ghost q = self.search@;
        let mut r: Vec<usize> = Vec::new();
        let mut k: usize = 0;
        while k < self.snippets.len()
            invariant
                k <= self.snippets@.len(),
                all == models(self.snippets@),
                q == self.search@,
                r@.map_values(|i: usize| i as int) == shown(all.subrange(0, k as int), q),
            decreases self.snippets@.len() - k,
        {
            let ghost before = r@;
            assert(all.subrange(0, k + 1).drop_last() =~= all.subrange(0, k as int));
            if contains_text(self.snippets[k].cmd.as_str(), self.search.as_str())
                || contains_text(self.snippets[k].description.as_str(), self.search.as_str()) {
                r.push(k);
                assert(r@.map_values(|i: usize| i as int) =~= before.map_values(|i: usize| i as int).push(
                    k as int,
                ));
            }
            k = k + 1;
        }
        assert(all.subrange(0, self.snippets@.len() as int) =~= all);
        r
    }

    /// The position in `snippets` of the selected entry, if any.
    pub fn selected_index(&self) -> (r: Option<usize>)
        requires
            self.wf(),
        ensures
            match self.state {
                Some(i) => r is Some && r->0 as int == self.shown_view()[i as int],
                None => r is None,
            },
            match r {
                Some(t) => t < self.snippets@.len(),
                None => true,
            },
    {
        proof {
            lemma_shown_positions(models(self.snippets@), self.search@);
        }
        match self.state {
            Some(i) => {
                let v = self.visible();
                assert(v@[i as int] as int == self.shown_view()[i as int]);
                Some(v[i])
            },
            None => None,
        }
    }

    /// Moves the selection one entry forward, staying on the last entry.
    pub fn select_next(&mut self)
        requires
            old(self).wf(),
        ensures
            final(self).wf(),
            final(self).error_msg == old(self).error_msg,
            final(self).quit == old(self).quit,
            final(self).terminal_restored == old(self).terminal_restored,
            final(self).state == next_selection(old(self).state, old(self).shown_view().len() as int),
            final(self).snippets@ == old(self).snippets@,
            final(self).search@ == old(self).search@,
            final(self).mode == old(self).mode,
    {
        let n = self.visible().len();
        self.state = match self.state {
            None => if n > 0 { Some(0) } else { None },
            Some(i) => if i + 1 < n { Some(i + 1) } else { Some(i) },
        };
    }

    /// Moves the selection one entry back, staying on the first entry.
    pub fn select_previous(&mut self)
        requires
            old(self).wf(),
        ensures
            final(self).wf(),
            final(self).error_msg == old(self).error_msg,
            final(self).quit == old(self).quit,
            final(self).terminal_restored == old(self).terminal_restored,
            final(self).state == previous_selection(old(self).state, old(self).shown_view().len() as int),
            final(self).snippets@ == old(self).snippets@,
            final(self).search@ == old(self).search@,
            final(self).mode == old(self).mode,
    {
        let n = self.visible().len();
        self.state = match self.state {
            None => if n > 0 { Some(0) } else { None },
            Some(i) => if i > 0 { Some(i - 1) } else { Some(i) },
        };
    }

    /// Replaces the search text; the selection moves to the first entry of
    /// the new list on display, or to none where that list is empty.
    pub fn set_search(&mut self, text: String)
        requires
            old(self).wf(),
        ensures
            final(self).wf(),
            final(self).quit == old(self).quit,
            final(self).terminal_restored == old(self).terminal_restored,
            final(self).search@ == text@,
            final(self).state == first_selection(final(self).shown_view().len() as int),
            final(self).snippets@ == old(self).snippets@,
            final(self).mode == old(self).mode,
            final(self).error_msg == old(self).error_msg,
    {
        self.search = text;
        let n = self.visible().len();
        self.state = if n > 0 { Some(0) } else { None };
    }

    /// Starts composing a new snippet in an empty editor; does nothing while
    /// editing.
    pub fn begin_add(&mut self)
        requires
            old(self).wf(),
        ensures
            final(self).wf(),
            final(self).quit == old(self).quit,
            final(self).terminal_restored == old(self).terminal_restored,
            old(self).editing() ==> final(self).mode == old(self).mode,
            !old(self).editing() ==> (final(self).mode matches Mode::Editing { buffer, target: None }
                && buffer@.len() == 0),
            final(self).snippets@ == old(self).snippets@,
            final(self).search@ == old(self).search@,
            final(self).state == old(self).state,
            final(self).error_msg == old(self).error_msg,
    {
        if let Mode::Browsing = self.mode {
            self.mode = Mode::Editing { buffer: String::new(), target: None };
        }
    }

    /// Starts editing the selected snippet, with the editor seeded by its
    /// three-line text; does nothing while editing or with no selection.
    pub fn begin_edit(&mut self)
        requires
            old(self).wf(),
        ensures
            final(self).wf(),
            final(self).quit == old(self).quit,
            final(self).terminal_restored == old(self).terminal_restored,
            (old(self).editing() || old(self).state is None) ==> final(self).mode == old(self).mode,
            (!old(self).editing() && old(self).state is Some) ==> (final(self).mode matches Mode::Editing {
                buffer,
                target: Some(t),
            } && t as int == old(self).shown_view()[old(self).state->0 as int] && buffer@ == rendered(
                old(self).snippets@[t as int]@,
            )),
            final(self).snippets@ == old(self).snippets@,
            final(self).search@ == old(self).search@,
            final(self).state == old(self).state,
            final(self).error_msg == old(self).error_msg,
    {
        proof {
            lemma_selection_in_view(*self);
        }
        if let Mode::Browsing = self.mode {
            if let Some(t) = self.selected_index() {

                let buffer = self.snippets[t].render();
                self.mode = Mode::Editing { buffer, target: Some(t) };
            }
        }
    }

    /// Replaces the editor's text while editing; does nothing otherwise.
    pub fn set_editor_text(&mut self, text: String)
        requires
            old(self).wf(),
        ensures
            final(self).wf(),
            final(self).quit == old(self).quit,
            final(self).terminal_restored == old(self).terminal_restored,
            match old(self).mode {
                Mode::Editing { target, .. } => final(self).mode matches Mode::Editing { buffer, target: t }
                    && buffer@ == text@ && t == target,
                Mode::Browsing => final(self).mode is Browsing,
            },
            final(self).snippets@ == old(self).snippets@,
            final(self).search@ == old(self).search@,
            final(self).state == old(self).state,
            final(self).error_msg == old(self).error_msg,
    {
        if let Mode::Editing { target, .. } = self.mode {
            self.mode = Mode::Editing { buffer: text, target };
        }
    }

    /// Ends an edit with the snippet read from the editor's text. Where
    /// there is one, it replaces the edited snippet, or is added at the end
    /// for a new one; the application browses again, the message is cleared
    /// and the selection is kept within the list on display. Where the text
    /// was no snippet, the editing goes on and the message says so. Does
    /// nothing while browsing.
    pub fn commit_edit(&mut self, parsed: Option<Snippet>)
        requires
            old(self).wf(),
        ensures
            final(self).wf(),
            final(self).quit == old(self).quit,
            final(self).terminal_restored == old(self).terminal_restored,
            final(self).search@ == old(self).search@,
            !old(self).editing() ==> final(self).mode == old(self).mode && final(self).snippets@
                == old(self).snippets@ && final(self).state == old(self).state && final(self).error_msg
                == old(self).error_msg,
            old(self).editing() && parsed is None ==> (final(self).error_msg matches Some(m) && m@
                == parse_error_message() && final(self).mode == old(self).mode && final(self).snippets@
                == old(self).snippets@ && final(self).state == old(self).state),
            old(self).editing() && parsed is Some ==> {
                &&& final(self).mode is Browsing
                &&& final(self).error_msg is None
                &&& models(final(self).snippets@) == match old(self).mode {
                    Mode::Editing { target: Some(t), .. } => models(old(self).snippets@).update(
                        t as int,
                        parsed->0@,
                    ),
                    _ => models(old(self).snippets@).push(parsed->0@),
                }
                &&& final(self).state == clamped_selection(
                    old(self).state,
                    final(self).shown_view().len() as int,
                )
            },
    {
        if let Mode::Editing { target, .. } = self.mode {
            match parsed {
                None => {
                    self.error_msg = Some(
                        String::from_str(
                            "the text is not a snippet: it needs priority, cmd and description",
                        ),
                    );
                },
                Some(s) => {
                    let ghost before = self.snippets@;
                    let ghost sm = s@;
                    match target {
                        Some(t) => {
                            self.snippets.set(t, s);
                            assert(models(self.snippets@) =~= models(before).update(t as int, sm));
                        },
                        None => {
                            self.snippets.push(s);
                            assert(models(self.snippets@) =~= models(before).push(sm));
                        },
                    }
                    self.mode = Mode::Browsing;
                    self.error_msg = None;
                    self.clamp_selection();
                },
            }
        }
    }

    /// Keeps the selection within the list on display.
    fn clamp_selection(&mut self)
        ensures
            final(self).state == clamped_selection(old(self).state, old(self).shown_view().len() as int),
            final(self).snippets == old(self).snippets,
            final(self).search == old(self).search,
            final(self).mode == old(self).mode,
            final(self).error_msg == old(self).error_msg,
            final(self).quit == old(self).quit,
            final(self).terminal_restored == old(self).terminal_restored,
    {
        let n = self.visible().len();
        self.state = match self.state {
            None => None,
            Some(i) => if i < n { Some(i) } else if n > 0 { Some(n - 1) } else { None },
        };
    }

    /// Ends an edit and drops the editor's text; the snippets stay as they
    /// were. Does nothing while browsing.
    pub fn cancel_edit(&mut self)
        requires
            old(self).wf(),
        ensures
            final(self).wf(),
            final(self).quit == old(self).quit,
            final(self).terminal_restored == old(self).terminal_restored,
            final(self).mode is Browsing,
            final(self).snippets@ == old(self).snippets@,
            final(self).search@ == old(self).search@,
            final(self).state == old(self).state,
            final(self).error_msg == old(self).error_msg,
    {
        self.mode = Mode::Browsing;
    }

    /// Removes the selected snippet while browsing and keeps the selection
    /// within the list on display: with the last entry gone, nothing is
    /// selected. Does nothing while editing or with no selection.
    pub fn remove_selected(&mut self)
        requires
            old(self).wf(),
        ensures
            final(self).wf(),
            final(self).error_msg == old(self).error_msg,
            final(self).quit == old(self).quit,
            final(self).terminal_restored == old(self).terminal_restored,
            final(self).search@ == old(self).search@,
            final(self).mode == old(self).mode,
            (old(self).editing() || old(self).state is None) ==> final(self).snippets@ == old(self).snippets@
                && final(self).state == old(self).state,
            (!old(self).editing() && old(self).state is Some) ==> {
                &&& final(self).snippets@ == old(self).snippets@.remove(
                    old(self).shown_view()[old(self).state->0 as int],
                )
                &&& final(self).state == clamped_selection(
                    old(self).state,
                    final(self).shown_view().len() as int,
                )
            },
            final(self).shown_view().len() == 0 ==> final(self).state is None,
    {
        proof {
            lemma_selection_in_view(*self);
        }
        if let Mode::Browsing = self.mode {
            if let Some(t) = self.selected_index() {
                self.snippets.remove(t);
                self.clamp_selection();
            }
        }
    }

    /// Clears the message for the user.
    pub fn dismiss_error(&mut self)
        requires
            old(self).wf(),
        ensures
            final(self).wf(),
            final(self).quit == old(self).quit,
            final(self).terminal_restored == old(self).terminal_restored,
            final(self).error_msg is None,
            final(self).mode == old(self).mode,
            final(self).snippets@ == old(self).snippets@,
            final(self).search@ == old(self).search@,
            final(self).state == old(self).state,
    {
        self.error_msg = None;
    }

    /// Starts quitting: gives the file content to be written, which holds the
    /// whole snippet list in order, whatever the search text or selection;
    /// gives nothing once quitting has finished. `quit` is set only by
    /// `finish_quit`, after the content has been written.
    pub fn quit(&self) -> (r: Option<SnippetFile>)
        ensures
            self.quit ==> r is None,
            !self.quit ==> (r matches Some(f) && f.wf() && f@ == saved(models(self.snippets@)) && loaded(f@)
                == models(self.snippets@)),
    {
        if self.quit {
            return None;
        }
        let f = SnippetFile::from_snippets(&self.snippets);
        proof {
            lemma_save_load_round_trip(models(self.snippets@));
        }
        Some(f)
    }

    /// Ends quitting once the content from `quit` has been written: `quit`
    /// is set where `written` holds, and stays as it was where the write
    /// failed, so that a later `quit` gives the content again.
    pub fn finish_quit(&mut self, written: bool)
        requires
            old(self).wf(),
        ensures
            final(self).wf(),
            final(self).quit == (old(self).quit || written),
            final(self).terminal_restored == old(self).terminal_restored,
            final(self).snippets@ == old(self).snippets@,
            final(self).mode == old(self).mode,
            final(self).state == old(self).state,
            final(self).search@ == old(self).search@,
            final(self).error_msg == old(self).error_msg,
    {
        if written {
            self.quit = true;
        }
    }

    /// Whether the selection lies within the list on display and an edited
    /// snippet within the snippets.
    pub fn is_well_formed(&self) -> (r: bool)
        ensures
            r == self.wf(),
    {
        let n = self.visible().len();
        let state_ok = match self.state {
            Some(i) => i < n,
            None => true,
        };
        let target_ok = match &self.mode {
            Mode::Editing { target: Some(t), .. } => *t < self.snippets.len(),
            _ => true,
        };
        state_ok && target_ok
    }
}

impl Default for App {
    /// The same as `App::new`.
    fn default() -> (r: App)
        ensures
            r.wf(),
            !r.quit,
            !r.terminal_restored,
            r.mode is Browsing,
            r.error_msg is None,
            r.search@.len() == 0,
            r.snippets@.len() == 0,
            r.state is None,
    {
        App::new()
    }
}

/// The editor is present exactly while the application is editing.
pub proof fn lemma_editor_iff_editing(app: App)
    ensures
        editor_of(app.mode) is Some <==> app.editing(),
{
}

/// In a well-formed application a selection names an entry of the list on
/// display, and that entry a snippet.
pub proof fn lemma_selection_in_view(app: App)
    requires
        app.wf(),
    ensures
        app.state matches Some(i) ==> i < app.shown_view().len() && 0 <= app.shown_view()[i as int]
            < app.snippets@.len(),
{
    lemma_shown_positions(models(app.snippets@), app.search@);
}

} // verus!
