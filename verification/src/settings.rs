//! The settings pop-up: four tabs listed on the left, the chosen tab's page
//! on the right, and a focus that moves between the two panes.

use vstd::prelude::*;

verus! {

/// The pages of the settings pop-up, in the order they are listed.
#[derive(Clone, Copy, PartialEq, Eq, Structural, Debug)]
pub enum SettingsTab {
    About,
    Shortcuts,
    Themes,
    Extra,
}

/// How many tabs the pop-up lists.
pub const TAB_COUNT: usize = 4;

/// The position of a tab in the list.
pub open spec fn tab_position(t: SettingsTab) -> nat {
    match t {
        SettingsTab::About => 0,
        SettingsTab::Shortcuts => 1,
        SettingsTab::Themes => 2,
        SettingsTab::Extra => 3,
    }
}

/// The tab at position `i`; positions past the list give the first tab.
pub open spec fn tab_at(i: int) -> SettingsTab {
    if i == 1 {
        SettingsTab::Shortcuts
    } else if i == 2 {
        SettingsTab::Themes
    } else if i == 3 {
        SettingsTab::Extra
    } else {
        SettingsTab::About
    }
}

/// The caption shown for a tab.
pub open spec fn tab_caption(t: SettingsTab) -> Seq<char> {
    match t {
        SettingsTab::About => "项目简介"@,
        SettingsTab::Shortcuts => "快捷键信息"@,
        SettingsTab::Themes => "主题设置"@,
        SettingsTab::Extra => "额外功能"@,
    }
}

impl SettingsTab {
    /// Every tab, in list order.
    pub fn all() -> (r: &'static [SettingsTab])
        ensures
            r@.len() == TAB_COUNT,
            forall|i: int| 0 <= i < r@.len() ==> r@[i] == tab_at(i),
    {
        &[SettingsTab::About, SettingsTab::Shortcuts, SettingsTab::Themes, SettingsTab::Extra]
    }

    /// The caption of the tab.
    pub fn label(&self) -> (r: &'static str)
        ensures
            r@ == tab_caption(*self),
    {
        match self {
            SettingsTab::About => "项目简介",
            SettingsTab::Shortcuts => "快捷键信息",
            SettingsTab::Themes => "主题设置",
            SettingsTab::Extra => "额外功能",
        }
    }

    /// The position of the tab in the list.
    pub fn index(&self) -> (r: usize)
        ensures
            r == tab_position(*self),
    {
        match self {
            SettingsTab::About => 0,
            SettingsTab::Shortcuts => 1,
            SettingsTab::Themes => 2,
            SettingsTab::Extra => 3,
        }
    }

    /// The tab at position `i`, or the first tab for a position past the list.
    pub fn from_index(i: usize) -> (r: SettingsTab)
        ensures
            r == tab_at(i as int),
    {
        match i {
            0 => SettingsTab::About,
            1 => SettingsTab::Shortcuts,
            2 => SettingsTab::Themes,
            3 => SettingsTab::Extra,
            _ => SettingsTab::About,
        }
    }
}

/// The state of the settings pop-up.
pub struct SettingsState {
    /// Whether the pop-up is open.
    pub show: bool,
    /// The page shown on the right.
    pub tab: SettingsTab,
    /// Whether the tab list (left) has the focus.
    pub focus_left: bool,
    /// The highlighted row of the tab list.
    pub selected_index: usize,
}

/// The highlighted row after moving up once: one row up, or the last row
/// from the first.
pub open spec fn row_above(i: usize) -> usize {
    if i >= 1 {
        (i - 1) as usize
    } else {
        (TAB_COUNT - 1) as usize
    }
}

/// The highlighted row after moving down once, wrapping after the last row.
pub open spec fn row_below(i: usize) -> usize {
    ((i + 1) % (TAB_COUNT as int)) as usize
}

/// What a key asks of the settings pop-up while it is open.
#[derive(Clone, Copy, PartialEq, Eq, Structural, Debug)]
pub enum SettingsKey {
    Close,
    Up,
    Down,
    Left,
    Right,
    SwitchPane,
    Other,
}

/// What the application has to do after a key in the settings pop-up.
#[derive(Clone, Copy, PartialEq, Eq, Structural, Debug)]
pub enum SettingsAction {
    /// Nothing beyond the pop-up's own state.
    Nothing,
    /// Step to the next colour theme.
    CycleTheme,
    /// Flip the download option.
    ToggleDownload,
}

/// The action that changing a value on the page `t` asks for.
pub open spec fn page_action(t: SettingsTab) -> SettingsAction {
    match t {
        SettingsTab::Themes => SettingsAction::CycleTheme,
        SettingsTab::Extra => SettingsAction::ToggleDownload,
        _ => SettingsAction::Nothing,
    }
}

impl SettingsState {
    /// A closed pop-up on the first tab, the list focused.
    pub fn new() -> (r: SettingsState)
        ensures
            !r.show,
            r.tab == SettingsTab::About,
            r.focus_left,
            r.selected_index == 0,
    {
        SettingsState { show: false, tab: SettingsTab::About, focus_left: true, selected_index: 0 }
    }

    /// Opens or closes the pop-up; opening starts again on the first tab with
    /// the list focused.
    pub fn toggle(&mut self)
        ensures
            final(self).show == !old(self).show,
            final(self).show ==> (final(self).focus_left && final(self).selected_index == 0
                && final(self).tab == SettingsTab::About),
            !final(self).show ==> (final(self).focus_left == old(self).focus_left
                && final(self).selected_index == old(self).selected_index
                && final(self).tab == old(self).tab),
    {
        self.show = !self.show;
        if self.show {
            self.focus_left = true;
            self.selected_index = 0;
            self.tab = SettingsTab::About;
        }
    }

    /// Moves the highlight one row up, wrapping to the last row, and shows
    /// that row's tab; does nothing while the page has the focus.
    pub fn move_up(&mut self)
        ensures
            final(self).show == old(self).show,
            final(self).focus_left == old(self).focus_left,
            old(self).focus_left ==> (final(self).selected_index == row_above(old(self).selected_index)
                && final(self).tab == tab_at(final(self).selected_index as int)),
            !old(self).focus_left ==> (final(self).selected_index == old(self).selected_index
                && final(self).tab == old(self).tab),
    {
        if self.focus_left {
            let len = SettingsTab::all().len();
            self.selected_index = match self.selected_index.checked_sub(1) {
                Some(v) => v,
                None => len - 1,
            };
            self.tab = SettingsTab::from_index(self.selected_index);
        }
    }

    /// Moves the highlight one row down, wrapping to the first row, and shows
    /// that row's tab; does nothing while the page has the focus.
    pub fn move_down(&mut self)
        requires
            old(self).selected_index < usize::MAX,
        ensures
            final(self).show == old(self).show,
            final(self).focus_left == old(self).focus_left,
            old(self).focus_left ==> (final(self).selected_index == row_below(old(self).selected_index)
                && final(self).tab == tab_at(final(self).selected_index as int)),
            !old(self).focus_left ==> (final(self).selected_index == old(self).selected_index
                && final(self).tab == old(self).tab),
    {
        if self.focus_left {
            let len = SettingsTab::all().len();
            self.selected_index = (self.selected_index + 1) % len;
            self.tab = SettingsTab::from_index(self.selected_index);
        }
    }

    /// Moves the focus to the other pane.
    pub fn tab_switch(&mut self)
        ensures
            final(self).focus_left == !old(self).focus_left,
            final(self).show == old(self).show,
            final(self).tab == old(self).tab,
            final(self).selected_index == old(self).selected_index,
    {
        self.focus_left = !self.focus_left;
    }

    /// Applies a key pressed while the pop-up is open. Up and down move the
    /// highlight while the list has the focus and change the page's value
    /// otherwise; left and right change the page's value; the switch key moves
    /// the focus; closing hides the pop-up. The result says which value of the
    /// application the key changes.
    pub fn handle_key(&mut self, key: SettingsKey) -> (r: SettingsAction)
        requires
            old(self).selected_index < usize::MAX,
        ensures
            match key {
                SettingsKey::Close => {
                    &&& r == SettingsAction::Nothing
                    &&& final(self).show == !old(self).show
                }
                SettingsKey::Up => if old(self).focus_left {
                    &&& r == SettingsAction::Nothing
                    &&& final(self).selected_index == row_above(old(self).selected_index)
                    &&& final(self).tab == tab_at(final(self).selected_index as int)
                    &&& final(self).focus_left && final(self).show == old(self).show
                } else {
                    r == page_action(old(self).tab) && *final(self) == *old(self)
                },
                SettingsKey::Down => if old(self).focus_left {
                    &&& r == SettingsAction::Nothing
                    &&& final(self).selected_index == row_below(old(self).selected_index)
                    &&& final(self).tab == tab_at(final(self).selected_index as int)
                    &&& final(self).focus_left && final(self).show == old(self).show
                } else {
                    r == page_action(old(self).tab) && *final(self) == *old(self)
                },
                SettingsKey::Left | SettingsKey::Right => {
                    r == page_action(old(self).tab) && *final(self) == *old(self)
                },
                SettingsKey::SwitchPane => {
                    &&& r == SettingsAction::Nothing
                    &&& final(self).focus_left == !old(self).focus_left
                    &&& final(self).show == old(self).show
                    &&& final(self).tab == old(self).tab
                    &&& final(self).selected_index == old(self).selected_index
                },
                SettingsKey::Other => r == SettingsAction::Nothing && *final(self) == *old(self),
            },
    {
        match key {
            SettingsKey::Close => {
                self.toggle();
                SettingsAction::Nothing
            },
            SettingsKey::Up => {
                if self.focus_left {
                    self.move_up();
                    SettingsAction::Nothing
                } else {
                    Self::value_action(self.tab)
                }
            },
            SettingsKey::Down => {
                if self.focus_left {
                    self.move_down();
                    SettingsAction::Nothing
                } else {
                    Self::value_action(self.tab)
                }
            },
            SettingsKey::Left | SettingsKey::Right => Self::value_action(self.tab),
            SettingsKey::SwitchPane => {
                self.tab_switch();
                SettingsAction::Nothing
            },
            SettingsKey::Other => SettingsAction::Nothing,
        }
    }

    fn value_action(t: SettingsTab) -> (r: SettingsAction)
        ensures
            r == page_action(t),
    {
        match t {
            SettingsTab::Themes => SettingsAction::CycleTheme,
            SettingsTab::Extra => SettingsAction::ToggleDownload,
            _ => SettingsAction::Nothing,
        }
    }
}

/// A tab's position leads back to the tab, and every position in the list
/// leads to the tab at that position.
pub proof fn law_tab_index_round_trip(t: SettingsTab, i: usize)
    ensures
        tab_at(tab_position(t) as int) == t,
        tab_position(t) < TAB_COUNT,
        i < TAB_COUNT ==> tab_position(tab_at(i as int)) == i,
{
}

/// Moving the highlight down and then up, or up and then down, returns to the
/// row one started from, for every row of the list.
pub proof fn law_rows_round_trip(i: usize)
    requires
        i < TAB_COUNT,
    ensures
        row_above(row_below(i)) == i,
        row_below(row_above(i)) == i,
        row_above(i) < TAB_COUNT,
        row_below(i) < TAB_COUNT,
{
}

/// Four moves in one direction bring the highlight back to where it was.
pub proof fn law_rows_cycle(i: usize)
    requires
        i < TAB_COUNT,
    ensures
        row_below(row_below(row_below(row_below(i)))) == i,
        row_above(row_above(row_above(row_above(i)))) == i,
{
}

} // verus!
