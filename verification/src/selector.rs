//! What the interactive picker reports, and what that means for the lookup.
//!
//! The picker is shown a block of lines and a title, and the user chooses one
//! line or leaves. Of its report the lookup reads two things: whether the
//! user aborted, and the lines that were selected.

use vstd::prelude::*;

verus! {

/// The report of a picker that ran.
#[derive(Debug, PartialEq, Eq)]
pub struct PickerOutput {
    /// The user left without accepting a line.
    pub is_abort: bool,
    /// The lines that were selected, as they were offered.
    pub selected_items: Vec<String>,
}

/// How a visit to the picker ended.
#[derive(Debug, PartialEq, Eq)]
pub enum Selection {
    /// The user chose this line.
    Chosen(String),
    /// The user aborted.
    Aborted,
    /// Nothing was selected, or the picker could not be shown at all.
    Nothing,
}

/// A [`Selection`] with its line as a character sequence.
pub enum SelectionView {
    Chosen(Seq<char>),
    Aborted,
    Nothing,
}

impl View for Selection {
    type V = SelectionView;

    open spec fn view(&self) -> SelectionView {
        match self {
            Selection::Chosen(line) => SelectionView::Chosen(line@),
            Selection::Aborted => SelectionView::Aborted,
            Selection::Nothing => SelectionView::Nothing,
        }
    }
}

impl Clone for Selection {
    fn clone(&self) -> (copy: Self)
        ensures
            copy == *self,
    {
        match self {
            Selection::Chosen(line) => Selection::Chosen(line.clone()),
            Selection::Aborted => Selection::Aborted,
            Selection::Nothing => Selection::Nothing,
        }
    }
}

/// How the visit ended, by the picker's report (`None` where the picker could
/// not be shown). An abort counts before anything that was selected; of
/// several selected lines the first is the chosen one.
pub open spec fn selection_of(output: Option<PickerOutput>) -> SelectionView {
    match output {
        None => SelectionView::Nothing,
        Some(report) => if report.is_abort {
            SelectionView::Aborted
        } else if report.selected_items@.len() == 0 {
            SelectionView::Nothing
        } else {
            SelectionView::Chosen(report.selected_items@[0]@)
        },
    }
}

impl Selection {
    /// Reads the picker's report; `None` stands for a picker that could not
    /// be shown.
    pub fn from_output(output: Option<PickerOutput>) -> (selection: Selection)
        ensures
            selection@ == selection_of(output),
    {
        match output {
            None => Selection::Nothing,
            Some(report) => {
                if report.is_abort {
                    Selection::Aborted
                } else if report.selected_items.len() == 0 {
                    Selection::Nothing
                } else {
                    Selection::Chosen(report.selected_items[0].clone())
                }
            },
        }
    }
}

} // verus!
