//! The terminal UI's state and how keys change it. Drawing is done by the
//! binary.

use vstd::prelude::*;

verus! {

/// The number of tabs.
pub const TAB_COUNT: usize = 4;

/// A key's code, as far as the UI tells keys apart.
#[derive(Debug, Clone, Copy, PartialEq, Eq, Structural)]
pub enum KeyCode {
    Char(char),
    Tab,
    BackTab,
    Up,
    Down,
    Other,
}

/// A key press: its code, and whether Control was held.
#[derive(Debug, Clone, Copy, PartialEq, Eq, Structural)]
pub struct KeyPress {
    pub code: KeyCode,
    pub control: bool,
}

/// The tab shown.
#[derive(Debug, Clone, Copy, PartialEq, Eq, Structural)]
pub enum TabView {
    Downloads,
    Completed,
    Settings,
    Help,
}

/// What the UI state holds.
pub struct TuiView {
    pub selected_tab: usize,
    pub selected_job: usize,
    pub should_quit: bool,
}

/// The state after a key press.
pub open spec fn spec_on_key(v: TuiView, key: KeyPress) -> TuiView {
    match key.code {
        KeyCode::Char(c) => if c == 'c' && key.control || c == 'q' {
            TuiView { should_quit: true, ..v }
        } else if c == 'k' {
            TuiView { selected_job: if v.selected_job > 0 { (v.selected_job - 1) as usize } else { 0 }, ..v }
        } else if c == 'j' {
            TuiView {
                selected_job: if v.selected_job < usize::MAX { (v.selected_job + 1) as usize } else { usize::MAX },
                ..v
            }
        } else {
            v
        },
        KeyCode::Tab => TuiView { selected_tab: ((v.selected_tab + 1) % 4) as usize, ..v },
        KeyCode::BackTab => TuiView {
            selected_tab: if v.selected_tab > 0 { (v.selected_tab - 1) as usize } else { 0 },
            ..v
        },
        KeyCode::Up => TuiView {
            selected_job: if v.selected_job > 0 { (v.selected_job - 1) as usize } else { 0 },
            ..v
        },
        KeyCode::Down => TuiView {
            selected_job: if v.selected_job < usize::MAX { (v.selected_job + 1) as usize } else { usize::MAX },
            ..v
        },
        KeyCode::Other => v,
    }
}

/// The terminal UI's state: the tab and job selected, and whether to quit.
#[derive(Debug)]
pub struct TuiState {
    selected_tab: usize,
    selected_job: usize,
    should_quit: bool,
}

impl View for TuiState {
    type V = TuiView;

    closed spec fn view(&self) -> TuiView {
        TuiView {
            selected_tab: self.selected_tab,
            selected_job: self.selected_job,
            should_quit: self.should_quit,
        }
    }
}

impl TuiState {
    #[verifier::type_invariant]
    spec fn inv(self) -> bool {
        self.selected_tab < TAB_COUNT
    }

    /// The first tab, the first job, running.
    pub fn new() -> (s: TuiState)
        ensures
            s@.selected_tab == 0 && s@.selected_job == 0 && !s@.should_quit,
    {
        TuiState { selected_tab: 0, selected_job: 0, should_quit: false }
    }

    /// The selected tab, always below `TAB_COUNT`.
    pub fn selected_tab(&self) -> (t: usize)
        ensures
            t == self@.selected_tab,
            t < TAB_COUNT,
    {
        proof {
            use_type_invariant(self);
        }
        self.selected_tab
    }

    /// The selected job.
    pub fn selected_job(&self) -> (j: usize)
        ensures
            j == self@.selected_job,
    {
        self.selected_job
    }

    /// Whether the UI is to quit.
    pub fn should_quit(&self) -> (q: bool)
        ensures
            q == self@.should_quit,
    {
        self.should_quit
    }

    /// The tab shown for the selection.
    pub fn tab_view(&self) -> (t: TabView)
        ensures
            self@.selected_tab == 0 ==> t == TabView::Downloads,
            self@.selected_tab == 1 ==> t == TabView::Completed,
            self@.selected_tab == 2 ==> t == TabView::Settings,
            self@.selected_tab == 3 ==> t == TabView::Help,
    {
        proof {
            use_type_invariant(self);
        }
        if self.selected_tab == 0 {
            TabView::Downloads
        } else if self.selected_tab == 1 {
            TabView::Completed
        } else if self.selected_tab == 2 {
            TabView::Settings
        } else {
            TabView::Help
        }
    }

    /// Handle a key press: Ctrl-C and `q` quit; Tab and Shift-Tab move
    /// between the tabs (Tab wrapping around, Shift-Tab stopping at the
    /// first); Up/`k` and Down/`j` move the job selection (saturating); other
    /// keys change nothing.
    pub fn on_key(&mut self, key: KeyPress)
        ensures
            final(self)@ == spec_on_key(old(self)@, key),
            key.code == KeyCode::Up ==> final(self)@.selected_job == (if old(self)@.selected_job
                == 0 {
                0
            } else {
                old(self)@.selected_job - 1
            }),
            key.code == KeyCode::Down ==> final(self)@.selected_job == (if old(self)@.selected_job
                == usize::MAX {
                usize::MAX as int
            } else {
                old(self)@.selected_job + 1
            }),
    {
        proof {
            use_type_invariant(&*self);
        }
        match key.code {
            KeyCode::Char(c) => {
                if (c == 'c' && key.control) || c == 'q' {
                    self.should_quit = true;
                } else if c == 'k' {
                    self.selected_job = self.selected_job.saturating_sub(1);
                } else if c == 'j' {
                    self.selected_job = self.selected_job.saturating_add(1);
                }
            },
            KeyCode::Tab => {
                self.selected_tab = (self.selected_tab + 1) % TAB_COUNT;
            },
            KeyCode::BackTab => {
                self.selected_tab = self.selected_tab.saturating_sub(1);
            },
            KeyCode::Up => {
                self.selected_job = self.selected_job.saturating_sub(1);
            },
            KeyCode::Down => {
                self.selected_job = self.selected_job.saturating_add(1);
            },
            KeyCode::Other => {},
        }
    }
}

/// Every key press keeps the selected tab among the tabs, and once the UI is
/// to quit it stays so.
pub proof fn lemma_keys_keep_tab_in_range(v: TuiView, key: KeyPress)
    requires
        v.selected_tab < 4,
    ensures
        spec_on_key(v, key).selected_tab < 4,
        v.should_quit ==> spec_on_key(v, key).should_quit,
{
}

/// Four Tab presses bring the selection back to the same tab.
pub proof fn lemma_tab_cycle(v: TuiView)
    requires
        v.selected_tab < 4,
    ensures
        ({
            let tab = KeyPress { code: KeyCode::Tab, control: false };
            spec_on_key(spec_on_key(spec_on_key(spec_on_key(v, tab), tab), tab), tab).selected_tab
                == v.selected_tab
        }),
{
}

/// Up moves the job selection one up, stopping at the first job, and changes
/// nothing else; Down moves it one down, stopping at the largest index.
pub proof fn lemma_up_down_move_selection(v: TuiView, control: bool)
    ensures
        ({
            let w = spec_on_key(v, KeyPress { code: KeyCode::Up, control });
            &&& w.selected_job == (if v.selected_job == 0 {
                0
            } else {
                v.selected_job - 1
            })
            &&& w.selected_tab == v.selected_tab
            &&& w.should_quit == v.should_quit
        }),
        ({
            let w = spec_on_key(v, KeyPress { code: KeyCode::Down, control });
            &&& w.selected_job == (if v.selected_job == usize::MAX {
                usize::MAX as int
            } else {
                v.selected_job + 1
            })
            &&& w.selected_tab == v.selected_tab
            &&& w.should_quit == v.should_quit
        }),
{
}

/// Up does what `k` does, and Down what `j` does.
pub proof fn lemma_arrows_match_vi_keys(v: TuiView, control: bool)
    ensures
        spec_on_key(v, KeyPress { code: KeyCode::Up, control }) == spec_on_key(
            v,
            KeyPress { code: KeyCode::Char('k'), control: false },
        ),
        spec_on_key(v, KeyPress { code: KeyCode::Down, control }) == spec_on_key(
            v,
            KeyPress { code: KeyCode::Char('j'), control: false },
        ),
{
}

/// Down then Up comes back to the same job, below the largest index; Up then
/// Down comes back to it, past the first job.
pub proof fn lemma_down_up_round_trip(v: TuiView, control: bool)
    ensures
        v.selected_job < usize::MAX ==> spec_on_key(
            spec_on_key(v, KeyPress { code: KeyCode::Down, control }),
            KeyPress { code: KeyCode::Up, control },
        ).selected_job == v.selected_job,
        v.selected_job > 0 ==> spec_on_key(
            spec_on_key(v, KeyPress { code: KeyCode::Up, control }),
            KeyPress { code: KeyCode::Down, control },
        ).selected_job == v.selected_job,
{
}

} // verus!
