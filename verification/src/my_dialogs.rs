//! What the dialogs of the panel were answered.

use crate::my_enums::PowerOption;
use vstd::prelude::*;

verus! {

/// The option that a closed power dialog stands for: the chosen entry where
/// the dialog was confirmed, entry 0 being shutdown and entry 1 reboot, and
/// `Unknown` for every other entry and for a dialog that was cancelled.
pub open spec fn chosen_option(confirm: bool, choice: i32) -> PowerOption {
    if confirm && choice == 0 {
        PowerOption::Shutdown
    } else if confirm && choice == 1 {
        PowerOption::Reboot
    } else {
        PowerOption::Unknown
    }
}

/// A power dialog after it was closed.
#[derive(Copy, Clone, Debug, PartialEq, Eq, Structural)]
pub struct PowerDialog {
    confirm: bool,
    choice: i32,
}

impl PowerDialog {
    /// Whether the dialog was closed with its confirm button.
    pub closed spec fn confirmed(&self) -> bool {
        self.confirm
    }

    /// The index of the entry that was selected when the dialog closed.
    pub closed spec fn choice(&self) -> i32 {
        self.choice
    }

    /// The dialog as it was closed: with the confirm button or not, and
    /// with the entry of this index selected.
    pub fn new(confirm: bool, choice: i32) -> (dialog: PowerDialog)
        ensures
            dialog.confirmed() == confirm,
            dialog.choice() == choice,
    {
        PowerDialog { confirm, choice }
    }

    /// The option that the user chose.
    pub fn value(&self) -> (option: PowerOption)
        ensures
            option == chosen_option(self.confirmed(), self.choice()),
    {
        if self.confirm {
            if self.choice == 0 {
                PowerOption::Shutdown
            } else if self.choice == 1 {
                PowerOption::Reboot
            } else {
                PowerOption::Unknown
            }
        } else {
            PowerOption::Unknown
        }
    }
}

} // verus!
