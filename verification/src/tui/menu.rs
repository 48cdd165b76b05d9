//! The main menu.

use vstd::prelude::*;

verus! {

/// The entries of the main menu.
#[derive(Debug, Clone, Copy, PartialEq, Eq, Structural)]
pub enum MenuSelection {
    HumanVsAI,
    HumanVsHuman,
    AIVsAI,
    Train,
    Quit,
}

/// The number of menu entries.
pub const MENU_LEN: usize = 5;

/// The menu entries, top to bottom.
pub open spec fn menu_entry(i: int) -> MenuSelection {
    if i == 0 {
        MenuSelection::HumanVsAI
    } else if i == 1 {
        MenuSelection::HumanVsHuman
    } else if i == 2 {
        MenuSelection::AIVsAI
    } else if i == 3 {
        MenuSelection::Train
    } else {
        MenuSelection::Quit
    }
}

/// The text shown for a menu entry.
pub open spec fn label_text(s: MenuSelection) -> Seq<char> {
    match s {
        MenuSelection::HumanVsAI => "Human vs AI"@,
        MenuSelection::HumanVsHuman => "Human vs Human"@,
        MenuSelection::AIVsAI => "AI vs AI"@,
        MenuSelection::Train => "Train"@,
        MenuSelection::Quit => "Quit"@,
    }
}

impl MenuSelection {
    /// The entry at a position of the menu.
    pub fn at(i: usize) -> (r: MenuSelection)
        requires
            i < MENU_LEN,
        ensures
            r == menu_entry(i as int),
    {
        if i == 0 {
            MenuSelection::HumanVsAI
        } else if i == 1 {
            MenuSelection::HumanVsHuman
        } else if i == 2 {
            MenuSelection::AIVsAI
        } else if i == 3 {
            MenuSelection::Train
        } else {
            MenuSelection::Quit
        }
    }

    /// The text shown for the entry.
    pub fn label(self) -> (r: &'static str)
        ensures
            r@ == label_text(self),
    {
        match self {
            MenuSelection::HumanVsAI => {
                proof { reveal_strlit("Human vs AI"); }
                "Human vs AI"
            },
            MenuSelection::HumanVsHuman => {
                proof { reveal_strlit("Human vs Human"); }
                "Human vs Human"
            },
            MenuSelection::AIVsAI => {
                proof { reveal_strlit("AI vs AI"); }
                "AI vs AI"
            },
            MenuSelection::Train => {
                proof { reveal_strlit("Train"); }
                "Train"
            },
            MenuSelection::Quit => {
                proof { reveal_strlit("Quit"); }
                "Quit"
            },
        }
    }
}

impl Default for MenuSelection {
    fn default() -> (r: MenuSelection)
        ensures
            r == MenuSelection::HumanVsAI,
    {
        MenuSelection::HumanVsAI
    }
}

/// The main menu: which entry is highlighted.
#[derive(Debug, Clone, Copy)]
pub struct MainMenu {
    pub selected_index: usize,
}

impl Default for MainMenu {
    fn default() -> (r: MainMenu)
        ensures
            r.selected_index == 0,
    {
        MainMenu { selected_index: 0 }
    }
}

impl MainMenu {
    /// Moves the highlight one entry up, staying on the first entry.
    pub fn move_up(&mut self)
        ensures
            final(self).selected_index == if old(self).selected_index > 0 {
                (old(self).selected_index - 1) as usize
            } else {
                old(self).selected_index
            },
    {
        if self.selected_index > 0 {
            self.selected_index = self.selected_index - 1;
        }
    }

    /// Moves the highlight one entry down, staying on the last entry.
    pub fn move_down(&mut self)
        ensures
            final(self).selected_index == if old(self).selected_index < MENU_LEN - 1 {
                (old(self).selected_index + 1) as usize
            } else {
                old(self).selected_index
            },
    {
        if self.selected_index < MENU_LEN - 1 {
            self.selected_index = self.selected_index + 1;
        }
    }

    /// The highlighted entry.
    pub fn current(&self) -> (r: MenuSelection)
        requires
            self.selected_index < MENU_LEN,
        ensures
            r == menu_entry(self.selected_index as int),
    {
        MenuSelection::at(self.selected_index)
    }
}

/// Moving the highlight keeps it on an entry of the menu.
pub proof fn lemma_menu_moves_stay_in_range(i: usize)
    requires
        i < MENU_LEN,
    ensures
        (if i > 0 { (i - 1) as usize } else { i }) < MENU_LEN,
        (if i < MENU_LEN - 1 { (i + 1) as usize } else { i }) < MENU_LEN,
{
}

} // verus!
