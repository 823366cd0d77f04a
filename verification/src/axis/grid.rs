//! Gridline

use vstd::prelude::*;
use vstd::string::*;
use crate::axis::Axis;

verus! {

/// Gridline properties.
///
/// Modified through [`configure_major_grid`] and [`configure_minor_grid`].
///
/// [`configure_major_grid`]: crate::axis::AxisProperties::configure_major_grid
/// [`configure_minor_grid`]: crate::axis::AxisProperties::configure_minor_grid
#[derive(Clone, Copy, Debug)]
pub struct Gridline {
    is_minor: bool,
    hidden: bool,
}

/// What a [`Gridline`] holds.
pub struct GridlineView {
    /// The lines stand on the minor tics, not on the major ones.
    pub is_minor: bool,
    /// The lines are not shown.
    pub hidden: bool,
}

/// The directive for the gridlines of an axis: nothing where they are hidden,
/// else `set grid`, then `m` for minor lines, then the axis and `tics`.
pub open spec fn gridline_text(axis: Axis, grid: GridlineView) -> Seq<char> {
    if grid.hidden {
        Seq::empty()
    } else if grid.is_minor {
        "set grid m"@ + axis.text() + "tics\n"@
    } else {
        "set grid "@ + axis.text() + "tics\n"@
    }
}

impl View for Gridline {
    type V = GridlineView;

    closed spec fn view(&self) -> GridlineView {
        GridlineView { is_minor: self.is_minor, hidden: self.hidden }
    }
}

impl Gridline {
    /// Hidden gridlines on the major or on the minor tics.
    pub fn new(is_minor: bool) -> (grid: Gridline)
        ensures
            grid@ == (GridlineView { is_minor, hidden: true }),
    {
        Gridline { is_minor, hidden: true }
    }

    /// Hides the gridlines
    ///
    /// **Note** Both `Major` and `Minor` gridlines are hidden by default
    pub fn conceal(self) -> (grid: Gridline)
        ensures
            grid@ == (GridlineView { hidden: true, ..self@ }),
    {
        let mut grid = self;
        grid.hidden = true;
        grid
    }

    /// Shows the gridlines
    pub fn show(self) -> (grid: Gridline)
        ensures
            grid@ == (GridlineView { hidden: false, ..self@ }),
    {
        let mut grid = self;
        grid.hidden = false;
        grid
    }

    /// The directive that draws these gridlines along `axis`.
    pub fn script(&self, axis: Axis) -> (script: String)
        ensures
            script@ == gridline_text(axis, self@),
    {
        if self.hidden {
            String::new()
        } else if self.is_minor {
            let mut script = "set grid m".to_owned();
            script.append(axis.display());
            script.append("tics\n");
            script
        } else {
            let mut script = "set grid ".to_owned();
            script.append(axis.display());
            script.append("tics\n");
            script
        }
    }
}

} // verus!
