//! The application controller: one owner of all interactive state, and the
//! two-axis (mode, tab) dispatch that routes every input event to the right
//! handler. The controller never performs I/O itself: handling an event
//! yields an [`Action`] for the surrounding shell, and the outcome of a
//! submitted search comes back through [`App::commit_search`].

use vstd::prelude::*;
use crate::editor::{BufView, InputBuffer};
use crate::query::{norm_of, normalize_query};
use crate::results::{ResultItem, ResultStore};
use crate::search::SearchFailure;
use crate::selection::{sel_next, sel_prev, sel_reset, sel_wf, SelectionModel};

verus! {

/// The modal state gating which keys route to which handler.
#[derive(Clone, Copy, PartialEq, Eq, Structural, Debug)]
pub enum Mode {
    Normal,
    Insert,
}

/// The active view; navigation keys are scoped to the Search tab.
#[derive(Clone, Copy, PartialEq, Eq, Structural, Debug)]
pub enum Tab {
    Search,
    Subscriptions,
}

/// One input event, as the controller sees it. The shell translates the
/// terminal's key presses into these before dispatching.
#[derive(Clone, Copy, PartialEq, Eq, Structural, Debug)]
pub enum InputEvent {
    Char(char),
    Backspace,
    Enter,
    Left,
    Right,
    Up,
    Down,
    Esc,
}

/// What the shell must do after an event is handled: nothing, run a search
/// with the given normalized query, or launch the player on the given link.
pub enum Action {
    Nothing,
    Submit(String),
    Launch(String),
}

/// Mathematical abstraction of an [`Action`].
pub enum ActView {
    Nothing,
    Submit(Seq<char>),
    Launch(Seq<char>),
}

impl View for Action {
    type V = ActView;

    open spec fn view(&self) -> ActView {
        match self {
            Action::Nothing => ActView::Nothing,
            Action::Submit(q) => ActView::Submit(q@),
            Action::Launch(u) => ActView::Launch(u@),
        }
    }
}

/// Mathematical abstraction of the whole interactive state.
pub struct AppView {
    pub buf: BufView,
    pub selected: Option<int>,
    pub items: Seq<ResultItem>,
    pub mode: Mode,
    pub tab: Tab,
    pub show_info: bool,
    pub running: bool,
    pub search_error: Option<SearchFailure>,
}

impl AppView {
    /// The cursor sits inside the text and the selection inside the results.
    pub open spec fn wf(self) -> bool {
        self.buf.wf() && sel_wf(self.selected, self.items.len() as int)
    }

    /// The state the application starts in: everything empty, Normal mode,
    /// Search tab, nothing selected, still running.
    pub open spec fn init() -> AppView {
        AppView {
            buf: BufView::cleared(),
            selected: None,
            items: Seq::empty(),
            mode: Mode::Normal,
            tab: Tab::Search,
            show_info: false,
            running: true,
            search_error: None,
        }
    }
}

/// One step of the controller: the state after the event and the action the
/// shell owes for it.
pub struct AppStep {
    pub post: AppView,
    pub act: ActView,
}

/// A step that only changes state and asks nothing of the shell.
pub open spec fn silent(post: AppView) -> AppStep {
    AppStep { post, act: ActView::Nothing }
}

/// Effect of a navigation key: the selection steps only while the Search tab
/// is active; on any other tab the key does nothing.
pub open spec fn step_nav_next(v: AppView) -> AppStep {
    if v.tab == Tab::Search {
        silent(AppView { selected: sel_next(v.selected, v.items.len() as int), ..v })
    } else {
        silent(v)
    }
}

/// Effect of the opposite navigation key, scoped the same way.
pub open spec fn step_nav_prev(v: AppView) -> AppStep {
    if v.tab == Tab::Search {
        silent(AppView { selected: sel_prev(v.selected, v.items.len() as int), ..v })
    } else {
        silent(v)
    }
}

/// Effect of the info-toggle key: flips the info pane only while results are
/// on show.
pub open spec fn step_toggle_info(v: AppView) -> AppStep {
    if v.items.len() > 0 {
        silent(AppView { show_info: !v.show_info, ..v })
    } else {
        silent(v)
    }
}

/// Effect of the activate key: with a selected row, ask the shell to launch
/// the player on that row's link; with none, a no-op. State never changes.
pub open spec fn step_activate(v: AppView) -> AppStep {
    match v.selected {
        Some(i) => AppStep { post: v, act: ActView::Launch(v.items[i].link@) },
        None => silent(v),
    }
}

/// The controller's transition function: given the current state and an
/// input event, the state afterwards and the action the shell owes.
///
/// In Normal mode the keys drive navigation, tabs, the info pane, playback
/// and quitting; in Insert mode they edit the query buffer, and Enter asks
/// the shell to run a search with the buffer's normalized text. Submission
/// itself changes no state here: the state moves when the outcome is
/// committed.
pub open spec fn app_step(v: AppView, e: InputEvent) -> AppStep {
    match v.mode {
        Mode::Normal => match e {
            InputEvent::Char(c) => {
                if c == 'q' {
                    silent(AppView { running: false, ..v })
                } else if c == 'j' {
                    step_nav_next(v)
                } else if c == 'k' {
                    step_nav_prev(v)
                } else if c == 's' {
                    silent(AppView { mode: Mode::Insert, ..v })
                } else if c == 'i' {
                    step_toggle_info(v)
                } else if c == '1' {
                    silent(AppView { tab: Tab::Search, ..v })
                } else if c == '2' {
                    silent(AppView { tab: Tab::Subscriptions, ..v })
                } else {
                    silent(v)
                }
            },
            InputEvent::Esc => silent(AppView { running: false, ..v }),
            InputEvent::Down => step_nav_next(v),
            InputEvent::Up => step_nav_prev(v),
            InputEvent::Enter => step_activate(v),
            _ => silent(v),
        },
        Mode::Insert => match e {
            InputEvent::Char(c) => silent(AppView { buf: v.buf.insert_at_cursor(c), ..v }),
            InputEvent::Backspace => silent(AppView { buf: v.buf.delete_before_cursor(), ..v }),
            InputEvent::Enter => AppStep { post: v, act: ActView::Submit(norm_of(v.buf.text)) },
            InputEvent::Left => silent(AppView { buf: v.buf.cursor_left(), ..v }),
            InputEvent::Right => silent(AppView { buf: v.buf.cursor_right(), ..v }),
            InputEvent::Esc => silent(AppView { mode: Mode::Normal, ..v }),
            _ => silent(v),
        },
    }
}

/// The outcome of a search, lifted to the abstraction: the returned items in
/// order, or the failure.
pub open spec fn outcome_view(o: Result<Vec<ResultItem>, SearchFailure>) -> Result<
    Seq<ResultItem>,
    SearchFailure,
> {
    match o {
        Ok(items) => Ok(items@),
        Err(f) => Err(f),
    }
}

/// Effect of committing a search outcome. Success replaces the results
/// wholesale, resets the selection to the first row (none when empty),
/// clears the query buffer and drops any earlier failure note; failure
/// leaves results, selection and buffer exactly as they were and records the
/// failure. Either way the mode returns to Normal.
pub open spec fn commit_step(v: AppView, o: Result<Seq<ResultItem>, SearchFailure>) -> AppView {
    match o {
        Ok(items) => AppView {
            buf: BufView::cleared(),
            selected: sel_reset(items.len() as int),
            items,
            mode: Mode::Normal,
            search_error: None,
            ..v
        },
        Err(f) => AppView { mode: Mode::Normal, search_error: Some(f), ..v },
    }
}

/// The composition root: exclusive owner of every piece of interactive
/// state. The render projection reads these fields; nothing else does.
pub struct App {
    pub input: InputBuffer,
    pub selection: SelectionModel,
    pub results: ResultStore,
    pub mode: Mode,
    pub tab: Tab,
    pub show_info: bool,
    pub running: bool,
    pub search_error: Option<SearchFailure>,
}

impl View for App {
    type V = AppView;

    open spec fn view(&self) -> AppView {
        AppView {
            buf: self.input@,
            selected: self.selection@,
            items: self.results@,
            mode: self.mode,
            tab: self.tab,
            show_info: self.show_info,
            running: self.running,
            search_error: self.search_error,
        }
    }
}

impl App {
    /// The state invariant every operation preserves.
    pub open spec fn wf(&self) -> bool {
        self@.wf()
    }

    /// A fresh application: empty everywhere, Normal mode, Search tab, and
    /// running.
    pub fn new() -> (r: App)
        ensures
            r.wf(),
            r@ == AppView::init(),
    {
        App {
            input: InputBuffer::new(),
            selection: SelectionModel::new(),
            results: ResultStore::new(),
            mode: Mode::Normal,
            tab: Tab::Search,
            show_info: false,
            running: true,
            search_error: None,
        }
    }

    /// Toggle the info pane, only while results are on show.
    pub fn toggle_info(&mut self)
        ensures
            final(self)@ == step_toggle_info(old(self)@).post,
    {
        if self.results.len() > 0 {
            self.show_info = !self.show_info;
        }
    }

    /// The link of the currently selected result, if any row is selected.
    pub fn selected_link(&self) -> (r: Option<String>)
        requires
            self.wf(),
        ensures
            self@.selected is None ==> r is None,
            self@.selected matches Some(i) ==> r matches Some(u) && u@ == self@.items[i].link@,
    {
        match self.selection.selected {
            Some(i) => Some(self.results.get(i).link.clone()),
            None => None,
        }
    }

    /// Handle one input event: route it by (mode, tab), mutate the state as
    /// the transition function says, and hand back the action the shell owes.
    pub fn handle_event(&mut self, e: InputEvent) -> (r: Action)
        requires
            old(self).wf(),
        ensures
            final(self).wf(),
            final(self)@ == app_step(old(self)@, e).post,
            r@ == app_step(old(self)@, e).act,
    {
        match self.mode {
            Mode::Normal => match e {
                InputEvent::Char(c) => {
                    if c == 'q' {
                        self.running = false;
                        Action::Nothing
                    } else if c == 'j' {
                        self.nav_next();
                        Action::Nothing
                    } else if c == 'k' {
                        self.nav_prev();
                        Action::Nothing
                    } else if c == 's' {
                        self.mode = Mode::Insert;
                        Action::Nothing
                    } else if c == 'i' {
                        self.toggle_info();
                        Action::Nothing
                    } else if c == '1' {
                        self.tab = Tab::Search;
                        Action::Nothing
                    } else if c == '2' {
                        self.tab = Tab::Subscriptions;
                        Action::Nothing
                    } else {
                        Action::Nothing
                    }
                },
                InputEvent::Esc => {
                    self.running = false;
                    Action::Nothing
                },
                InputEvent::Down => {
                    self.nav_next();
                    Action::Nothing
                },
                InputEvent::Up => {
                    self.nav_prev();
                    Action::Nothing
                },
                InputEvent::Enter => match self.selected_link() {
                    Some(u) => Action::Launch(u),
                    None => Action::Nothing,
                },
                _ => Action::Nothing,
            },
            Mode::Insert => match e {
                InputEvent::Char(c) => {
                    self.input.insert(c);
                    Action::Nothing
                },
                InputEvent::Backspace => {
                    self.input.delete_backward();
                    Action::Nothing
                },
                InputEvent::Enter => Action::Submit(normalize_query(&self.input.text)),
                InputEvent::Left => {
                    self.input.move_left();
                    Action::Nothing
                },
                InputEvent::Right => {
                    self.input.move_right();
                    Action::Nothing
                },
                InputEvent::Esc => {
                    self.mode = Mode::Normal;
                    Action::Nothing
                },
                _ => Action::Nothing,
            },
        }
    }

    /// Step the selection one row down, only while the Search tab is active.
    fn nav_next(&mut self)
        requires
            old(self).wf(),
        ensures
            final(self).wf(),
            final(self)@ == step_nav_next(old(self)@).post,
    {
        match self.tab {
            Tab::Search => {
                let n = self.results.len();
                self.selection.next(n);
            },
            Tab::Subscriptions => {},
        }
    }

    /// Step the selection one row up, only while the Search tab is active.
    fn nav_prev(&mut self)
        requires
            old(self).wf(),
        ensures
            final(self).wf(),
            final(self)@ == step_nav_prev(old(self)@).post,
    {
        match self.tab {
            Tab::Search => {
                let n = self.results.len();
                self.selection.prev(n);
            },
            Tab::Subscriptions => {},
        }
    }

    /// Commit the outcome of a submitted search, as [`commit_step`] says:
    /// success installs the items, selects the first (none when the answer
    /// is empty) and clears the query; failure leaves results, selection and
    /// query untouched and records the failure. The mode returns to Normal.
    pub fn commit_search(&mut self, outcome: Result<Vec<ResultItem>, SearchFailure>)
        requires
            old(self).wf(),
        ensures
            final(self).wf(),
            final(self)@ == commit_step(old(self)@, outcome_view(outcome)),
    {
        match outcome {
            Ok(items) => {
                self.results.replace(items);
                let n = self.results.len();
                self.selection.reset(n);
                self.input.clear();
                self.mode = Mode::Normal;
                self.search_error = None;
            },
            Err(f) => {
                self.mode = Mode::Normal;
                self.search_error = Some(f);
            },
        }
    }
}

/// After a successful search with `n >= 1` items the first row is selected,
/// and with an empty answer nothing is.
pub proof fn lemma_commit_success_selects_first(v: AppView, items: Seq<ResultItem>)
    ensures
        items.len() >= 1 ==> commit_step(v, Ok(items)).selected == Some(0int),
        items.len() == 0 ==> commit_step(v, Ok(items)).selected is None,
{
}

/// After a successful search the query buffer is empty with the cursor at
/// the start.
pub proof fn lemma_commit_success_clears_input(v: AppView, items: Seq<ResultItem>)
    ensures
        commit_step(v, Ok(items)).buf == BufView::cleared(),
        commit_step(v, Ok(items)).buf.text.len() == 0,
        commit_step(v, Ok(items)).buf.cursor == 0,
{
}

/// A failed submission leaves the results and the selection exactly as they
/// stood before the submission: neither the Enter that submitted nor the
/// failed commit touches them, and the query stays as typed for a retry.
pub proof fn lemma_failed_submission_preserves_results(v: AppView, f: SearchFailure)
    requires
        v.mode == Mode::Insert,
    ensures
        commit_step(app_step(v, InputEvent::Enter).post, Err(f)).items == v.items,
        commit_step(app_step(v, InputEvent::Enter).post, Err(f)).selected == v.selected,
        commit_step(app_step(v, InputEvent::Enter).post, Err(f)).buf == v.buf,
        commit_step(app_step(v, InputEvent::Enter).post, Err(f)).search_error == Some(f),
{
}

} // verus!
