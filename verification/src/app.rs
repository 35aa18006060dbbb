//! The session state machine.
//!
//! One [`App`] value owns every piece of mutable interaction state:
//! the mode, the filter inputs, the cursor, the selection and the
//! sync pop-up.  Commands produced by the input translator are
//! dispatched by [`App::handle_keyboard_event`]; its contract is the
//! transition table of the session, total over every mode/command
//! pair — a pair no rule names leaves the session unchanged.
//!
//! The shell around the library runs the loop: it draws from the
//! accessors, feeds events in, and, when a call returns a spawn
//! request, starts the upgrade process and streams its output back
//! through [`crate::sync::SyncWidget::append_output`].

use crate::config::Colors;
use crate::fuzzy::matcher_new;
use crate::keyboard::{Events, KeyboardEvent, Move};
use crate::pacman::{spec_upgradable_names, upgradable_names, PackageData};
use crate::query::{query_handle_event, query_new, query_reset, query_text, query_value};
use crate::selection::{
    names_of, spec_deselect_all, spec_select_all, spec_toggle, SelectionSet,
};
use crate::sync::{SyncStates, SyncWidget};
use crate::tabs::{spec_next_tab, spec_previous_tab, DependenciesTabs};
use crate::view::{filtered_view, lemma_filtered_exact, spec_filtered, PAGE_SIZE};
use fuzzy_matcher::skim::SkimMatcherV2;
use vstd::prelude::*;

verus! {

/// Top-level interaction state of the session.  `Exiting` is
/// terminal: no command changes it.
#[derive(Clone, Copy, PartialEq, Eq, Structural, Debug)]
pub enum State {
    Normal,
    Searching,
    /// `false` while the confirmation prompt is up; `true` once the
    /// upgrade process has been spawned.
    Syncing(bool),
    Exiting,
}

impl Default for State {
    /// A session starts in browsing mode.
    fn default() -> (r: Self)
        ensures
            r == State::Normal,
    {
        State::Normal
    }
}

/// The interactive session.
pub struct App {
    pub state: State,
    /// When set, the view holds only upgradable packages.
    pub filter_upgradables: bool,
    pub colors: Colors,
    /// The package source snapshot the session browses.
    pub packages: Vec<PackageData>,
    /// Index into the filtered view; `None` exactly when the view is
    /// empty.
    pub cursor: Option<usize>,
    pub dependencies_tabs: DependenciesTabs,
    pub sync_widget: SyncWidget,
    /// The search query buffer.
    pub input: tui_input::Input,
    pub search_matcher: SkimMatcherV2,
    pub selected_packages: SelectionSet,
}

/// The query text the session currently filters by.
pub open spec fn spec_query(app: App) -> Seq<char> {
    query_text(app.input)
}

/// The filtered view the session currently shows.
pub open spec fn spec_view(app: App) -> Seq<int> {
    spec_filtered(app.packages@, spec_query(app), app.filter_upgradables)
}

/// Length of the filtered view.
pub open spec fn spec_flen(app: App) -> int {
    spec_view(app).len() as int
}

/// The cursor as a mathematical value.
pub open spec fn cur_of(c: Option<usize>) -> Option<int> {
    match c {
        Some(i) => Some(i as int),
        None => None,
    }
}

/// Clamping rule for the cursor: none on an empty view; otherwise
/// kept when already in `[0, flen)`, pulled back to the last row when
/// beyond it, and put on the first row when it was none.
pub open spec fn spec_clamp_cursor(c: Option<int>, flen: int) -> Option<int> {
    if flen <= 0 {
        None
    } else {
        match c {
            None => Some(0),
            Some(i) => if i < 0 {
                Some(0)
            } else if i < flen {
                Some(i)
            } else {
                Some(flen - 1)
            },
        }
    }
}

/// Navigation over a view of `flen` rows: jumps clamp at both ends,
/// nothing wraps around, and an empty view pins the cursor to none.
pub open spec fn spec_navigate(c: Option<int>, flen: int, mov: Move) -> Option<int> {
    if flen <= 0 {
        None
    } else {
        let cur = match spec_clamp_cursor(c, flen) {
            Some(i) => i,
            None => 0,
        };
        match mov {
            Move::First => Some(0),
            Move::Last => Some(flen - 1),
            Move::Next => Some(if cur + 1 < flen {
                cur + 1
            } else {
                flen - 1
            }),
            Move::Previous => Some(if cur > 0 {
                cur - 1
            } else {
                0
            }),
            Move::JumpUp => Some(
                if cur > (PAGE_SIZE as int) {
                    cur - (PAGE_SIZE as int)
                } else {
                    0
                },
            ),
            Move::JumpDown => Some(
                if cur + (PAGE_SIZE as int) < flen {
                    cur + (PAGE_SIZE as int)
                } else {
                    flen - 1
                },
            ),
        }
    }
}

/// The package the cursor rests on, by its position in the package
/// source, when the cursor is valid for the current view.
pub open spec fn spec_cursor_index(app: App) -> Option<int> {
    match app.cursor {
        Some(i) => if (i as int) < spec_view(app).len() {
            Some(spec_view(app)[i as int])
        } else {
            None
        },
        None => None,
    }
}

/// The name of the package the cursor rests on, if any.
pub open spec fn spec_cursor_name(app: App) -> Option<Seq<char>> {
    match spec_cursor_index(app) {
        Some(ix) => Some(app.packages@[ix].name@),
        None => None,
    }
}

/// Law: clamping lands in the view — inside `[0, flen)` when the view
/// is non-empty, and on none exactly when it is empty.
pub proof fn lemma_clamp_cursor_in_bounds(c: Option<int>, flen: int)
    ensures
        flen > 0 ==> (spec_clamp_cursor(c, flen) matches Some(i) && 0 <= i < flen),
        flen <= 0 ==> spec_clamp_cursor(c, flen) is None,
{
}

/// Law: navigation always lands in the view, whatever the moves were
/// — inside `[0, flen)` when the view is non-empty, and on none
/// exactly when it is empty.
pub proof fn lemma_navigate_in_bounds(c: Option<int>, flen: int, mov: Move)
    ensures
        flen > 0 ==> (spec_navigate(c, flen, mov) matches Some(i) && 0 <= i < flen),
        flen <= 0 ==> spec_navigate(c, flen, mov) is None,
{
}

/// The mode transition table, total over every mode/command pair: a
/// pair no row names keeps the mode (and, elsewhere, the rest of the
/// session) unchanged.
pub open spec fn spec_next_state(
    s: State,
    cmd: Option<Events>,
    query_empty: bool,
    selection_empty: bool,
) -> State {
    match s {
        State::Normal => match cmd {
            Some(Events::Quit) => State::Exiting,
            Some(Events::Search) => State::Searching,
            Some(Events::Back) => if query_empty {
                State::Exiting
            } else {
                State::Normal
            },
            Some(Events::Sync) => if selection_empty {
                State::Normal
            } else {
                State::Syncing(false)
            },
            _ => State::Normal,
        },
        State::Searching => match cmd {
            Some(Events::Confirm) => State::Normal,
            Some(Events::Back) => State::Normal,
            _ => State::Searching,
        },
        State::Syncing(running) => match cmd {
            Some(Events::Back) => State::Normal,
            Some(Events::Confirm) => State::Syncing(true),
            _ => State::Syncing(running),
        },
        State::Exiting => State::Exiting,
    }
}

/// The upgradable-only flag after a command.
pub open spec fn spec_next_filter(pre: App, cmd: Option<Events>) -> bool {
    if pre.state == State::Normal && cmd == Some(Events::Filter) {
        !pre.filter_upgradables
    } else {
        pre.filter_upgradables
    }
}

/// The dependency-detail tab after a command.
pub open spec fn spec_next_tabs(pre: App, cmd: Option<Events>) -> DependenciesTabs {
    if pre.state == State::Normal {
        match cmd {
            Some(Events::Tab(Move::Next)) => spec_next_tab(pre.dependencies_tabs),
            Some(Events::Tab(Move::Previous)) => spec_previous_tab(pre.dependencies_tabs),
            _ => pre.dependencies_tabs,
        }
    } else {
        pre.dependencies_tabs
    }
}

/// The selection after a command.
pub open spec fn spec_next_selection(pre: App, cmd: Option<Events>) -> Set<Seq<char>> {
    if pre.state == State::Normal {
        match cmd {
            Some(Events::Select) => match spec_cursor_name(pre) {
                Some(n) => spec_toggle(pre.selected_packages@, n),
                None => pre.selected_packages@,
            },
            Some(Events::SelectUpgradables) => if pre.selected_packages@.is_empty() {
                spec_select_all(
                    pre.selected_packages@,
                    spec_upgradable_names(pre.packages@).to_set(),
                )
            } else {
                spec_deselect_all(
                    pre.selected_packages@,
                    spec_upgradable_names(pre.packages@).to_set(),
                )
            },
            _ => pre.selected_packages@,
        }
    } else {
        pre.selected_packages@
    }
}

/// The cursor after a command; where the command changes the view
/// (filter toggles, query edits), the cursor is re-clamped to the view
/// after the command, `post`.
pub open spec fn spec_next_cursor(pre: App, post: App, cmd: Option<Events>) -> Option<int> {
    match pre.state {
        State::Normal => match cmd {
            Some(Events::Navigate(mov)) => spec_navigate(cur_of(pre.cursor), spec_flen(pre), mov),
            Some(Events::Filter) => spec_clamp_cursor(cur_of(pre.cursor), spec_flen(post)),
            Some(Events::Back) => spec_clamp_cursor(cur_of(pre.cursor), spec_flen(post)),
            _ => cur_of(pre.cursor),
        },
        State::Searching => match cmd {
            Some(Events::Confirm) => cur_of(pre.cursor),
            _ => spec_clamp_cursor(cur_of(pre.cursor), spec_flen(post)),
        },
        _ => cur_of(pre.cursor),
    }
}

/// Whether the command clears the search query.
pub open spec fn spec_clears_query(s: State, cmd: Option<Events>) -> bool {
    (s == State::Normal && cmd == Some(Events::Back)) || (s == State::Searching && cmd == Some(
        Events::Back,
    ))
}

/// Whether the command leaves the search query alone.  The remaining
/// case is searching-mode passthrough, where the raw event edits the
/// query freely.
pub open spec fn spec_keeps_query(s: State, cmd: Option<Events>) -> bool {
    !spec_clears_query(s, cmd) && !(s == State::Searching && cmd != Some(Events::Confirm) && cmd
        != Some(Events::Back))
}

/// How a command changes the sync pop-up: a fresh session when a sync
/// is requested, phase and scroll changes while one is up, untouched
/// otherwise.
pub open spec fn spec_next_sync_ok(pre: App, post: App, cmd: Option<Events>) -> bool {
    match pre.state {
        State::Normal => if cmd == Some(Events::Sync) && !pre.selected_packages@.is_empty() {
            post.sync_widget.state == SyncStates::Confirmation && post.sync_widget.vertical_scroll
                == 0 && post.sync_widget.output@ == Seq::<char>::empty()
        } else {
            post.sync_widget == pre.sync_widget
        },
        State::Syncing(running) => match cmd {
            Some(Events::Navigate(Move::Next)) => post.sync_widget.state == pre.sync_widget.state
                && post.sync_widget.output == pre.sync_widget.output
                && post.sync_widget.vertical_scroll == (
            if pre.sync_widget.vertical_scroll == i16::MAX {
                i16::MAX as int
            } else {
                pre.sync_widget.vertical_scroll + 1
            }),
            Some(Events::Navigate(Move::Previous)) => post.sync_widget.state
                == pre.sync_widget.state && post.sync_widget.output == pre.sync_widget.output
                && post.sync_widget.vertical_scroll == (
            if pre.sync_widget.vertical_scroll == i16::MIN {
                i16::MIN as int
            } else {
                pre.sync_widget.vertical_scroll - 1
            }),
            Some(Events::Confirm) => if !running {
                post.sync_widget.state == SyncStates::Syncing && post.sync_widget.vertical_scroll
                    == pre.sync_widget.vertical_scroll && post.sync_widget.output
                    == pre.sync_widget.output
            } else {
                post.sync_widget == pre.sync_widget
            },
            _ => post.sync_widget == pre.sync_widget,
        },
        _ => post.sync_widget == pre.sync_widget,
    }
}

/// Clone a list of names, value for value.
fn clone_names(v: &Vec<String>) -> (r: Vec<String>)
    ensures
        r@ == v@,
{
    let mut r: Vec<String> = Vec::new();
    let mut i: usize = 0;
    while i < v.len()
        invariant
            i <= v@.len(),
            r@ == v@.subrange(0, i as int),
        decreases v@.len() - i,
    {
        r.push(v[i].clone());
        proof {
            assert(r@ =~= v@.subrange(0, i + 1));
        }
        i = i + 1;
    }
    proof {
        assert(v@.subrange(0, v@.len() as int) =~= v@);
    }
    r
}

impl App {
    /// A fresh session over a package snapshot: browsing mode, no
    /// filter, empty query, empty selection, cursor on the first row
    /// of the (full) view when there is one.
    pub fn new(packages: Vec<PackageData>, colors: Colors) -> (r: Self)
        ensures
            r.state == State::Normal,
            r.filter_upgradables == false,
            r.packages == packages,
            r.colors == colors,
            r.dependencies_tabs == DependenciesTabs::Deps,
            r.sync_widget.state == SyncStates::Confirmation,
            r.sync_widget.vertical_scroll == 0,
            r.sync_widget.output@ == Seq::<char>::empty(),
            spec_query(r) == Seq::<char>::empty(),
            r.selected_packages@ == Set::<Seq<char>>::empty(),
            r.selected_packages.wf(),
            cur_of(r.cursor) == spec_clamp_cursor(None, spec_flen(r)),
    {
        let mut app = App {
            state: State::Normal,
            filter_upgradables: false,
            colors,
            packages,
            cursor: None,
            dependencies_tabs: DependenciesTabs::Deps,
            sync_widget: SyncWidget::new(),
            input: query_new(),
            search_matcher: matcher_new(),
            selected_packages: SelectionSet::new(),
        };
        app.clamp_cursor();
        app
    }

    /// Pull the cursor back into the current view.  Everything else
    /// is left alone.
    pub fn clamp_cursor(&mut self)
        ensures
            cur_of(final(self).cursor) == spec_clamp_cursor(
                cur_of(old(self).cursor),
                spec_flen(*old(self)),
            ),
            final(self).state == old(self).state,
            final(self).filter_upgradables == old(self).filter_upgradables,
            final(self).colors == old(self).colors,
            final(self).packages == old(self).packages,
            final(self).dependencies_tabs == old(self).dependencies_tabs,
            final(self).sync_widget == old(self).sync_widget,
            final(self).input == old(self).input,
            final(self).search_matcher == old(self).search_matcher,
            final(self).selected_packages == old(self).selected_packages,
    {
        let flen = self.view_len();
        if flen == 0 {
            self.cursor = None;
        } else {
            match self.cursor {
                None => {
                    self.cursor = Some(0);
                },
                Some(i) => {
                    if i >= flen {
                        self.cursor = Some(flen - 1);
                    }
                },
            }
        }
    }

    /// The current filtered view, as indices into the package source.
    pub fn filtered(&self) -> (r: Vec<usize>)
        ensures
            r@.map_values(|k: usize| k as int) == spec_view(*self),
    {
        let q = query_value(&self.input);
        filtered_view(&self.packages, &self.search_matcher, q.as_str(), self.filter_upgradables)
    }

    /// How many rows the current view holds.
    pub fn view_len(&self) -> (r: usize)
        ensures
            r == spec_flen(*self),
    {
        let v = self.filtered();
        proof {
            assert(v@.map_values(|k: usize| k as int).len() == v@.len());
        }
        v.len()
    }

    /// The search query, as text.
    pub fn query(&self) -> (r: String)
        ensures
            r@ == spec_query(*self),
    {
        query_value(&self.input)
    }

    /// Move the cursor.
    pub fn navigate(&mut self, mov: Move)
        ensures
            cur_of(final(self).cursor) == spec_navigate(
                cur_of(old(self).cursor),
                spec_flen(*old(self)),
                mov,
            ),
            final(self).state == old(self).state,
            final(self).filter_upgradables == old(self).filter_upgradables,
            final(self).colors == old(self).colors,
            final(self).packages == old(self).packages,
            final(self).dependencies_tabs == old(self).dependencies_tabs,
            final(self).sync_widget == old(self).sync_widget,
            final(self).input == old(self).input,
            final(self).search_matcher == old(self).search_matcher,
            final(self).selected_packages == old(self).selected_packages,
    {
        let flen = self.view_len();
        if flen == 0 {
            self.cursor = None;
            return;
        }
        let cur: usize = match self.cursor {
            None => 0,
            Some(i) => if i < flen {
                i
            } else {
                flen - 1
            },
        };
        let next: usize = match mov {
            Move::First => 0,
            Move::Last => flen - 1,
            Move::Next => if cur + 1 < flen {
                cur + 1
            } else {
                flen - 1
            },
            Move::Previous => if cur > 0 {
                cur - 1
            } else {
                0
            },
            Move::JumpUp => if cur > PAGE_SIZE {
                cur - PAGE_SIZE
            } else {
                0
            },
            Move::JumpDown => if flen - cur > PAGE_SIZE {
                cur + PAGE_SIZE
            } else {
                flen - 1
            },
        };
        self.cursor = Some(next);
    }

    /// Jump the cursor one page up.
    pub fn jump_up(&mut self)
        ensures
            cur_of(final(self).cursor) == spec_navigate(
                cur_of(old(self).cursor),
                spec_flen(*old(self)),
                Move::JumpUp,
            ),
            final(self).state == old(self).state,
            final(self).filter_upgradables == old(self).filter_upgradables,
            final(self).packages == old(self).packages,
            final(self).input == old(self).input,
            final(self).selected_packages == old(self).selected_packages,
            final(self).sync_widget == old(self).sync_widget,
            final(self).dependencies_tabs == old(self).dependencies_tabs,
            final(self).colors == old(self).colors,
            final(self).search_matcher == old(self).search_matcher,
    {
        self.navigate(Move::JumpUp);
    }

    /// Jump the cursor one page down.
    pub fn jump_down(&mut self)
        ensures
            cur_of(final(self).cursor) == spec_navigate(
                cur_of(old(self).cursor),
                spec_flen(*old(self)),
                Move::JumpDown,
            ),
            final(self).state == old(self).state,
            final(self).filter_upgradables == old(self).filter_upgradables,
            final(self).packages == old(self).packages,
            final(self).input == old(self).input,
            final(self).selected_packages == old(self).selected_packages,
            final(self).sync_widget == old(self).sync_widget,
            final(self).dependencies_tabs == old(self).dependencies_tabs,
            final(self).colors == old(self).colors,
            final(self).search_matcher == old(self).search_matcher,
    {
        self.navigate(Move::JumpDown);
    }

    /// Cycle the dependency-detail tab forward.
    pub fn next_tab(&mut self)
        ensures
            final(self).dependencies_tabs == spec_next_tab(old(self).dependencies_tabs),
            final(self).state == old(self).state,
            final(self).filter_upgradables == old(self).filter_upgradables,
            final(self).packages == old(self).packages,
            final(self).cursor == old(self).cursor,
            final(self).input == old(self).input,
            final(self).selected_packages == old(self).selected_packages,
            final(self).sync_widget == old(self).sync_widget,
            final(self).colors == old(self).colors,
            final(self).search_matcher == old(self).search_matcher,
    {
        self.dependencies_tabs = self.dependencies_tabs.next();
    }

    /// Cycle the dependency-detail tab backward.
    pub fn previous_tab(&mut self)
        ensures
            final(self).dependencies_tabs == spec_previous_tab(old(self).dependencies_tabs),
            final(self).state == old(self).state,
            final(self).filter_upgradables == old(self).filter_upgradables,
            final(self).packages == old(self).packages,
            final(self).cursor == old(self).cursor,
            final(self).input == old(self).input,
            final(self).selected_packages == old(self).selected_packages,
            final(self).sync_widget == old(self).sync_widget,
            final(self).colors == old(self).colors,
            final(self).search_matcher == old(self).search_matcher,
    {
        self.dependencies_tabs = self.dependencies_tabs.previous();
    }

    /// The package the cursor rests on, when the cursor is valid for
    /// the current view.
    pub fn current_package(&self) -> (r: Option<&PackageData>)
        ensures
            match r {
                Some(p) => spec_cursor_index(*self) matches Some(ix) && *p == self.packages@[ix],
                None => spec_cursor_index(*self) is None,
            },
    {
        let v = self.filtered();
        match self.cursor {
            Some(i) => {
                if i < v.len() {
                    let idx = v[i];
                    proof {
                        lemma_filtered_exact(
                            self.packages@,
                            spec_query(*self),
                            self.filter_upgradables,
                        );
                        assert(spec_view(*self)[i as int] == idx as int);
                        assert(spec_view(*self).contains(idx as int));
                    }
                    Some(&self.packages[idx])
                } else {
                    None
                }
            },
            None => None,
        }
    }

    /// Toggle the selection of the package under the cursor; with no
    /// valid cursor nothing changes.
    pub fn toggle_package_selection(&mut self)
        requires
            old(self).selected_packages.wf(),
        ensures
            final(self).selected_packages.wf(),
            final(self).selected_packages@ == (match spec_cursor_name(*old(self)) {
                Some(n) => spec_toggle(old(self).selected_packages@, n),
                None => old(self).selected_packages@,
            }),
            final(self).state == old(self).state,
            final(self).filter_upgradables == old(self).filter_upgradables,
            final(self).colors == old(self).colors,
            final(self).packages == old(self).packages,
            final(self).cursor == old(self).cursor,
            final(self).dependencies_tabs == old(self).dependencies_tabs,
            final(self).sync_widget == old(self).sync_widget,
            final(self).input == old(self).input,
            final(self).search_matcher == old(self).search_matcher,
    {
        let v = self.filtered();
        match self.cursor {
            Some(i) => {
                if i < v.len() {
                    let idx = v[i];
                    proof {
                        lemma_filtered_exact(
                            self.packages@,
                            spec_query(*self),
                            self.filter_upgradables,
                        );
                        assert(spec_view(*self)[i as int] == idx as int);
                        assert(spec_view(*self).contains(idx as int));
                    }
                    let name = self.packages[idx].name.clone();
                    self.selected_packages.toggle(name);
                }
            },
            None => {},
        }
    }

    /// Bulk toggle: select every upgradable package when nothing is
    /// selected, deselect them all otherwise.
    pub fn toggle_upgradable_packages(&mut self)
        requires
            old(self).selected_packages.wf(),
        ensures
            final(self).selected_packages.wf(),
            final(self).selected_packages@ == (if old(self).selected_packages@.is_empty() {
                spec_select_all(
                    old(self).selected_packages@,
                    spec_upgradable_names(old(self).packages@).to_set(),
                )
            } else {
                spec_deselect_all(
                    old(self).selected_packages@,
                    spec_upgradable_names(old(self).packages@).to_set(),
                )
            }),
            final(self).state == old(self).state,
            final(self).filter_upgradables == old(self).filter_upgradables,
            final(self).colors == old(self).colors,
            final(self).packages == old(self).packages,
            final(self).cursor == old(self).cursor,
            final(self).dependencies_tabs == old(self).dependencies_tabs,
            final(self).sync_widget == old(self).sync_widget,
            final(self).input == old(self).input,
            final(self).search_matcher == old(self).search_matcher,
    {
        let upg = upgradable_names(&self.packages);
        if self.selected_packages.is_empty() {
            self.selected_packages.select_all_upgradable(&upg);
        } else {
            self.selected_packages.deselect_all_upgradable(&upg);
        }
    }

    /// Ask for a sync: with a non-empty selection, open a fresh sync
    /// session at its confirmation prompt; with nothing selected this
    /// does nothing.
    pub fn upgrade_packages(&mut self)
        ensures
            final(self).state == (if old(self).selected_packages@.is_empty() {
                old(self).state
            } else {
                State::Syncing(false)
            }),
            old(self).selected_packages@.is_empty() ==> final(self).sync_widget == old(self).sync_widget,
            !old(self).selected_packages@.is_empty() ==> final(self).sync_widget.state
                == SyncStates::Confirmation && final(self).sync_widget.vertical_scroll == 0 && final(self).sync_widget.output@ == Seq::<char>::empty(),
            final(self).filter_upgradables == old(self).filter_upgradables,
            final(self).colors == old(self).colors,
            final(self).packages == old(self).packages,
            final(self).cursor == old(self).cursor,
            final(self).dependencies_tabs == old(self).dependencies_tabs,
            final(self).input == old(self).input,
            final(self).search_matcher == old(self).search_matcher,
            final(self).selected_packages == old(self).selected_packages,
    {
        if !self.selected_packages.is_empty() {
            self.state = State::Syncing(false);
            self.sync_widget = SyncWidget::new();
        }
    }

    /// The upgrade process could not be spawned: abandon the sync and
    /// go back to browsing; the session stays usable as before.
    pub fn sync_spawn_failed(&mut self)
        ensures
            final(self).state == State::Normal,
            final(self).filter_upgradables == old(self).filter_upgradables,
            final(self).colors == old(self).colors,
            final(self).packages == old(self).packages,
            final(self).cursor == old(self).cursor,
            final(self).dependencies_tabs == old(self).dependencies_tabs,
            final(self).sync_widget == old(self).sync_widget,
            final(self).input == old(self).input,
            final(self).search_matcher == old(self).search_matcher,
            final(self).selected_packages == old(self).selected_packages,
    {
        self.state = State::Normal;
    }

    /// Dispatch one keyboard event according to the transition table.
    /// Returns the package names to spawn the upgrade process for,
    /// exactly when a sync was just confirmed; the shell performs the
    /// spawn and reports a failure through
    /// [`App::sync_spawn_failed`].
    pub fn handle_keyboard_event(&mut self, keyboard_event: KeyboardEvent) -> (r: Option<
        Vec<String>,
    >)
        requires
            old(self).selected_packages.wf(),
        ensures
            final(self).packages == old(self).packages,
            final(self).colors == old(self).colors,
            final(self).search_matcher == old(self).search_matcher,
            final(self).selected_packages.wf(),
            final(self).state == spec_next_state(
                old(self).state,
                keyboard_event.event,
                spec_query(*old(self)).len() == 0,
                old(self).selected_packages@.is_empty(),
            ),
            final(self).filter_upgradables == spec_next_filter(*old(self), keyboard_event.event),
            final(self).dependencies_tabs == spec_next_tabs(*old(self), keyboard_event.event),
            final(self).selected_packages@ == spec_next_selection(
                *old(self),
                keyboard_event.event,
            ),
            cur_of(final(self).cursor) == spec_next_cursor(
                *old(self),
                *final(self),
                keyboard_event.event,
            ),
            spec_next_sync_ok(*old(self), *final(self), keyboard_event.event),
            spec_clears_query(old(self).state, keyboard_event.event) ==> spec_query(
                *final(self),
            ).len() == 0,
            spec_keeps_query(old(self).state, keyboard_event.event) ==> spec_query(*final(self))
                == spec_query(*old(self)),
            (r is Some) == (old(self).state == State::Syncing(false) && keyboard_event.event
                == Some(Events::Confirm)),
            r matches Some(v) ==> names_of(v@).to_set() == old(self).selected_packages@
                && names_of(v@).no_duplicates(),
    {
        match self.state {
            State::Normal => {
                if let Some(event) = keyboard_event.event {
                    match event {
                        Events::Quit => {
                            self.state = State::Exiting;
                        },
                        Events::Search => {
                            self.state = State::Searching;
                        },
                        Events::Filter => {
                            self.filter_upgradables = !self.filter_upgradables;
                            self.clamp_cursor();
                        },
                        Events::Select => {
                            self.toggle_package_selection();
                        },
                        Events::SelectUpgradables => {
                            self.toggle_upgradable_packages();
                        },
                        Events::Sync => {
                            self.upgrade_packages();
                        },
                        Events::Navigate(mov) => {
                            self.navigate(mov);
                        },
                        Events::Tab(mov) => {
                            match mov {
                                Move::Next => self.next_tab(),
                                Move::Previous => self.previous_tab(),
                                _ => {},
                            }
                        },
                        Events::Back => {
                            let q = query_value(&self.input);
                            if q.as_str().is_empty() {
                                self.state = State::Exiting;
                            } else {
                                query_reset(&mut self.input);
                            }
                            self.clamp_cursor();
                        },
                        Events::Confirm => {},
                    }
                }
                None
            },
            State::Searching => {
                if let Some(event) = keyboard_event.event {
                    match event {
                        Events::Confirm => {
                            self.state = State::Normal;
                            return None;
                        },
                        Events::Back => {
                            query_reset(&mut self.input);
                            self.state = State::Normal;
                            self.clamp_cursor();
                            return None;
                        },
                        _ => {},
                    }
                }
                query_handle_event(&mut self.input, &keyboard_event.raw);
                self.clamp_cursor();
                None
            },
            State::Syncing(running) => {
                if let Some(event) = keyboard_event.event {
                    match event {
                        Events::Navigate(mov) => {
                            match mov {
                                Move::Next => self.sync_widget.next(),
                                Move::Previous => self.sync_widget.previous(),
                                _ => {},
                            }
                            None
                        },
                        Events::Back => {
                            self.state = State::Normal;
                            None
                        },
                        Events::Confirm => {
                            if !running {
                                let names = clone_names(self.selected_packages.as_vec());
                                self.state = State::Syncing(true);
                                self.sync_widget.start_sync();
                                Some(names)
                            } else {
                                None
                            }
                        },
                        _ => None,
                    }
                } else {
                    None
                }
            },
            State::Exiting => None,
        }
    }
}

} // verus!
