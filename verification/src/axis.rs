//! Coordinate axis

use vstd::prelude::*;
use vstd::string::*;
use crate::number::{Number, NumberView};
use crate::style::text_view;
use crate::axis::grid::{gridline_text, Gridline, GridlineView};

pub mod grid;

verus! {

/// A coordinate axis
#[derive(Clone, Copy, Debug)]
pub enum Axis {
    /// X axis on the bottom side of the figure
    BottomX,
    /// Y axis on the left side of the figure
    LeftY,
    /// Y axis on the right side of the figure
    RightY,
    /// X axis on the top side of the figure
    TopX,
}

/// A pair of axes that define a coordinate system.
#[derive(Clone, Copy, Debug)]
pub enum Axes {
    BottomXLeftY,
    BottomXRightY,
    TopXLeftY,
    TopXRightY,
}

/// Axis range
///
/// Used by [`AxisProperties::range`].
#[derive(Clone, Debug)]
pub enum Range {
    /// Autoscale the axis
    Auto,
    /// Set the limits of the axis
    Limits(Number, Number),
}

/// Axis scale.
///
/// Used by [`AxisProperties::scale`].
#[derive(Clone, Copy, Debug)]
pub enum Scale {
    Linear,
    Logarithmic,
}

/// Labels attached to the tics of an axis
pub struct TicLabels {
    /// Labels to attach to the tics
    pub labels: Vec<String>,
    /// Position of the tics on the axis
    pub positions: Vec<Number>,
}

/// Properties of the coordinate axes.
///
/// Modified through [`configure_axis`](crate::Figure::configure_axis).
#[derive(Clone, Debug)]
pub struct AxisProperties {
    major_grid: Gridline,
    minor_grid: Gridline,
    hidden: bool,
    label: Option<String>,
    logarithmic: bool,
    range: Option<(Number, Number)>,
    scale_factor: u64,
    tics: Option<String>,
}

/// What an [`AxisProperties`] holds.
pub struct AxisPropertiesView {
    /// The gridlines on the major tics.
    pub major_grid: GridlineView,
    /// The gridlines on the minor tics.
    pub minor_grid: GridlineView,
    /// The axis is not shown.
    pub hidden: bool,
    /// The label of the axis, if any.
    pub label: Option<Seq<char>>,
    /// The axis has a logarithmic scale.
    pub logarithmic: bool,
    /// The low and the high end of the range shown; `None` where the axis is
    /// scaled automatically.
    pub range: Option<(NumberView, NumberView)>,
    /// The bit pattern of the factor that scales every coordinate plotted
    /// against the axis.
    pub scale_factor: u64,
    /// The list of tic labels, if any.
    pub tics: Option<Seq<char>>,
}

impl Axis {
    /// The position of the axis in the order in which axes are visited:
    /// `BottomX`, `LeftY`, `RightY`, `TopX`.
    pub open spec fn rank(self) -> int {
        match self {
            Axis::BottomX => 0,
            Axis::LeftY => 1,
            Axis::RightY => 2,
            Axis::TopX => 3,
        }
    }

    /// The axis at position `rank`, for `0 <= rank < 4`.
    pub open spec fn of_rank(rank: int) -> Axis {
        if rank == 0 {
            Axis::BottomX
        } else if rank == 1 {
            Axis::LeftY
        } else if rank == 2 {
            Axis::RightY
        } else {
            Axis::TopX
        }
    }

    /// The name of the axis.
    pub open spec fn text(self) -> Seq<char> {
        match self {
            Axis::BottomX => "x"@,
            Axis::LeftY => "y"@,
            Axis::RightY => "y2"@,
            Axis::TopX => "x2"@,
        }
    }

    /// The axis visited after this one, `None` after the last.
    pub fn next(self) -> (following: Option<Axis>)
        ensures
            self.rank() < 3 ==> following == Some(Axis::of_rank(self.rank() + 1)),
            self.rank() == 3 ==> following is None,
    {
        match self {
            Axis::BottomX => Some(Axis::LeftY),
            Axis::LeftY => Some(Axis::RightY),
            Axis::RightY => Some(Axis::TopX),
            Axis::TopX => None,
        }
    }

    /// The name of the axis in a script.
    pub fn display(self) -> (s: &'static str)
        ensures
            s@ == self.text(),
    {
        match self {
            Axis::BottomX => "x",
            Axis::LeftY => "y",
            Axis::RightY => "y2",
            Axis::TopX => "x2",
        }
    }
}

impl Axes {
    /// The horizontal axis of the pair.
    pub open spec fn x_axis(self) -> Axis {
        match self {
            Axes::BottomXLeftY | Axes::BottomXRightY => Axis::BottomX,
            Axes::TopXLeftY | Axes::TopXRightY => Axis::TopX,
        }
    }

    /// The vertical axis of the pair.
    pub open spec fn y_axis(self) -> Axis {
        match self {
            Axes::BottomXLeftY | Axes::TopXLeftY => Axis::LeftY,
            Axes::BottomXRightY | Axes::TopXRightY => Axis::RightY,
        }
    }

    /// The name of the pair.
    pub open spec fn text(self) -> Seq<char> {
        match self {
            Axes::BottomXLeftY => "x1y1"@,
            Axes::BottomXRightY => "x1y2"@,
            Axes::TopXLeftY => "x2y1"@,
            Axes::TopXRightY => "x2y2"@,
        }
    }

    /// The horizontal and the vertical axis of the pair.
    pub fn split(self) -> (pair: (Axis, Axis))
        ensures
            pair == (self.x_axis(), self.y_axis()),
    {
        match self {
            Axes::BottomXLeftY => (Axis::BottomX, Axis::LeftY),
            Axes::BottomXRightY => (Axis::BottomX, Axis::RightY),
            Axes::TopXLeftY => (Axis::TopX, Axis::LeftY),
            Axes::TopXRightY => (Axis::TopX, Axis::RightY),
        }
    }

    /// The name of the pair in a script.
    pub fn display(self) -> (s: &'static str)
        ensures
            s@ == self.text(),
    {
        match self {
            Axes::BottomXLeftY => "x1y1",
            Axes::BottomXRightY => "x1y2",
            Axes::TopXLeftY => "x2y1",
            Axes::TopXRightY => "x2y2",
        }
    }
}

/// One entry of a list of tic labels: the label in quotes, then its position.
pub open spec fn tic_entry(label: Seq<char>, position: Seq<char>) -> Seq<char> {
    "'"@ + label + "' "@ + position
}

/// The first `n` entries of a list of tic labels, joined by a comma and a
/// space.
pub open spec fn tic_list(labels: Seq<Seq<char>>, positions: Seq<Seq<char>>, n: nat) -> Seq<char>
    decreases n,
{
    if n == 0 {
        Seq::empty()
    } else if n == 1 {
        tic_entry(labels[0], positions[0])
    } else {
        tic_list(labels, positions, (n - 1) as nat) + ", "@ + tic_entry(
            labels[n - 1],
            positions[n - 1],
        )
    }
}

/// The number of pairs that a list of labels and a list of positions make:
/// the length of the shorter.
pub open spec fn tic_count(labels: nat, positions: nat) -> nat {
    if labels <= positions {
        labels
    } else {
        positions
    }
}

impl TicLabels {
    /// The texts of the labels.
    pub open spec fn label_texts(&self) -> Seq<Seq<char>> {
        self.labels@.map_values(|label: String| label@)
    }

    /// The decimal texts of the positions.
    pub open spec fn position_texts(&self) -> Seq<Seq<char>> {
        self.positions@.map_values(|position: Number| position@.text)
    }

    /// The list that the labels and positions make, `None` where there is no
    /// pair.
    pub open spec fn list(&self) -> Option<Seq<char>> {
        let n = tic_count(self.labels@.len(), self.positions@.len());
        if n == 0 {
            None
        } else {
            Some(tic_list(self.label_texts(), self.position_texts(), n))
        }
    }
}

/// The parenthesised list of tic labels, empty where there is none.
pub open spec fn tics_text(tics: Option<Seq<char>>) -> Seq<char> {
    match tics {
        None => Seq::empty(),
        Some(list) => "("@ + list + ")"@,
    }
}

/// The directive that labels an axis, empty where it has no label.
pub open spec fn label_text(axis: Axis, label: Option<Seq<char>>) -> Seq<char> {
    match label {
        None => Seq::empty(),
        Some(label) => "set "@ + axis.text() + "label '"@ + label + "'\n"@,
    }
}

/// The directive that sets the range of an axis, empty where the axis is
/// scaled automatically.
pub open spec fn range_text(axis: Axis, range: Option<(NumberView, NumberView)>) -> Seq<char> {
    match range {
        None => Seq::empty(),
        Some((low, high)) => "set "@ + axis.text() + "range ["@ + low.text + ":"@ + high.text
            + "]\n"@,
    }
}

/// The directive that makes an axis logarithmic, empty for a linear axis.
pub open spec fn logscale_text(axis: Axis, logarithmic: bool) -> Seq<char> {
    if logarithmic {
        "set logscale "@ + axis.text() + "\n"@
    } else {
        Seq::empty()
    }
}

/// The directives for an axis.  A hidden axis gets `unset ..tics` and nothing
/// else.  A visible one gets its tics directive with the list of tic labels,
/// then its label, range, logarithmic scale, major and minor gridlines.
pub open spec fn axis_text(axis: Axis, properties: AxisPropertiesView) -> Seq<char> {
    if properties.hidden {
        "unset "@ + axis.text() + "tics\n"@
    } else {
        "set "@ + axis.text() + "tics nomirror "@ + tics_text(properties.tics) + "\n"@
            + label_text(axis, properties.label) + range_text(axis, properties.range)
            + logscale_text(axis, properties.logarithmic) + gridline_text(
            axis,
            properties.major_grid,
        ) + gridline_text(axis, properties.minor_grid)
    }
}

/// The view of an optional pair of numbers.
pub open spec fn range_view(range: Option<(Number, Number)>) -> Option<(NumberView, NumberView)> {
    match range {
        None => None,
        Some((low, high)) => Some((low@, high@)),
    }
}

impl View for AxisProperties {
    type V = AxisPropertiesView;

    closed spec fn view(&self) -> AxisPropertiesView {
        AxisPropertiesView {
            major_grid: self.major_grid@,
            minor_grid: self.minor_grid@,
            hidden: self.hidden,
            label: text_view(self.label),
            logarithmic: self.logarithmic,
            range: range_view(self.range),
            scale_factor: self.scale_factor,
            tics: text_view(self.tics),
        }
    }
}

impl Axis {
    /// The axis is hidden unless it is shown: so are the axis on the right
    /// and the axis on the top.
    pub open spec fn hidden_at_first(self) -> bool {
        self is RightY || self is TopX
    }
}

impl AxisPropertiesView {
    /// What the properties of `axis` hold before they are configured: a
    /// linear, automatically scaled axis without label, tic labels or
    /// gridlines, with the scale factor one.  The axes on the bottom and on
    /// the left are visible, those on the right and on the top hidden.
    pub open spec fn initial(axis: Axis) -> AxisPropertiesView {
        AxisPropertiesView {
            major_grid: GridlineView { is_minor: false, hidden: true },
            minor_grid: GridlineView { is_minor: true, hidden: true },
            hidden: axis.hidden_at_first(),
            label: None,
            logarithmic: false,
            range: None,
            scale_factor: crate::number::ONE,
            tics: None,
        }
    }
}

impl AxisProperties {
    /// The properties of `axis` with nothing configured.
    pub fn new(axis: Axis) -> (properties: AxisProperties)
        ensures
            properties@ == AxisPropertiesView::initial(axis),
    {
        let hidden = match axis {
            Axis::BottomX | Axis::LeftY => false,
            Axis::RightY | Axis::TopX => true,
        };
        AxisProperties {
            major_grid: Gridline::new(false),
            minor_grid: Gridline::new(true),
            hidden,
            label: None,
            logarithmic: false,
            range: None,
            scale_factor: crate::number::ONE,
            tics: None,
        }
    }

    /// Hides the axis
    ///
    /// **Note** The `TopX` and `RightY` axes are hidden by default
    pub fn conceal(self) -> (properties: AxisProperties)
        ensures
            properties@ == (AxisPropertiesView { hidden: true, ..self@ }),
    {
        let mut properties = self;
        properties.hidden = true;
        properties
    }

    /// Makes the axis visible
    ///
    /// **Note** The `BottomX` and `LeftY` axes are visible by default
    pub fn show(self) -> (properties: AxisProperties)
        ensures
            properties@ == (AxisPropertiesView { hidden: false, ..self@ }),
    {
        let mut properties = self;
        properties.hidden = false;
        properties
    }

    /// Attaches a label to the axis
    pub fn label(self, label: &str) -> (properties: AxisProperties)
        ensures
            properties@ == (AxisPropertiesView { label: Some(label@), ..self@ }),
    {
        let mut properties = self;
        properties.label = Some(label.to_owned());
        properties
    }

    /// Changes the range of the axis that will be shown, and makes the axis
    /// visible
    ///
    /// **Note** All axes are auto-scaled by default
    pub fn range(self, range: Range) -> (properties: AxisProperties)
        ensures
            properties@ == (AxisPropertiesView {
                hidden: false,
                range: match range {
                    Range::Auto => None,
                    Range::Limits(low, high) => Some((low@, high@)),
                },
                ..self@
            }),
    {
        let mut properties = self;
        properties.hidden = false;
        match range {
            Range::Auto => {
                properties.range = None;
            },
            Range::Limits(low, high) => {
                properties.range = Some((low, high));
            },
        }
        properties
    }

    /// Sets the scale of the axis, and makes the axis visible
    ///
    /// **Note** All axes use a linear scale by default
    pub fn scale(self, scale: Scale) -> (properties: AxisProperties)
        ensures
            properties@ == (AxisPropertiesView {
                hidden: false,
                logarithmic: scale is Logarithmic,
                ..self@
            }),
    {
        let mut properties = self;
        properties.hidden = false;
        match scale {
            Scale::Linear => {
                properties.logarithmic = false;
            },
            Scale::Logarithmic => {
                properties.logarithmic = true;
            },
        }
        properties
    }

    /// Changes the *scale factor* of the axis, given as the bit pattern of a
    /// double.
    ///
    /// All the data plotted against this axis will have its corresponding coordinate
    /// scaled with this factor before being plotted.
    ///
    /// **Note** The default scale factor is `1`.
    pub fn scale_factor(self, factor: u64) -> (properties: AxisProperties)
        ensures
            properties@ == (AxisPropertiesView { scale_factor: factor, ..self@ }),
    {
        let mut properties = self;
        properties.scale_factor = factor;
        properties
    }

    /// The bit pattern of the scale factor of the axis.
    pub fn factor(&self) -> (factor: u64)
        ensures
            factor == self@.scale_factor,
    {
        self.scale_factor
    }

    /// Attaches labels to the tics of an axis, and makes the axis visible.
    ///
    /// The labels and the positions are paired in order; what the longer list
    /// holds beyond the length of the shorter is left out.  Without any pair
    /// the axis keeps no list.
    pub fn tick_labels(self, tics: &TicLabels) -> (properties: AxisProperties)
        ensures
            properties@ == (AxisPropertiesView { hidden: false, tics: tics.list(), ..self@ }),
    {
        let mut properties = self;
        properties.hidden = false;
        properties.tics = tic_list_script(tics);
        properties
    }

    /// Configure the major grid. These grid lines are placed on the major tic marks.
    pub fn configure_major_grid<F: FnOnce(Gridline) -> Gridline>(self, configure: F) -> (properties:
        AxisProperties)
        requires
            forall|grid: Gridline| grid@ == self@.major_grid ==> configure.requires((grid,)),
        ensures
            exists|before: Gridline, after: Gridline|
                before@ == self@.major_grid && after@ == properties@.major_grid
                    && #[trigger] configure.ensures((before,), after),
            properties@ == (AxisPropertiesView { major_grid: properties@.major_grid, ..self@ }),
    {
        let mut properties = self;
        let ghost before = properties.major_grid;
        properties.major_grid = configure(properties.major_grid);
        assert(configure.ensures((before,), properties.major_grid));
        properties
    }

    /// Configure the minor grid. These grid lines are placed on the minor tic marks.
    pub fn configure_minor_grid<F: FnOnce(Gridline) -> Gridline>(self, configure: F) -> (properties:
        AxisProperties)
        requires
            forall|grid: Gridline| grid@ == self@.minor_grid ==> configure.requires((grid,)),
        ensures
            exists|before: Gridline, after: Gridline|
                before@ == self@.minor_grid && after@ == properties@.minor_grid
                    && #[trigger] configure.ensures((before,), after),
            properties@ == (AxisPropertiesView { minor_grid: properties@.minor_grid, ..self@ }),
    {
        let mut properties = self;
        let ghost before = properties.minor_grid;
        properties.minor_grid = configure(properties.minor_grid);
        assert(configure.ensures((before,), properties.minor_grid));
        properties
    }

    /// The directives that set up `axis` with these properties.
    pub fn script(&self, axis: Axis) -> (script: String)
        ensures
            script@ == axis_text(axis, self@),
    {
        if self.hidden {
            let mut script = "unset ".to_owned();
            script.append(axis.display());
            script.append("tics\n");
            return script;
        }
        let tics = tics_script(&self.tics);
        let label = label_script(axis, &self.label);
        let range = range_script(axis, &self.range);
        let logscale = logscale_script(axis, self.logarithmic);
        let major = self.major_grid.script(axis);
        let minor = self.minor_grid.script(axis);
        let mut script = "set ".to_owned();
        script.append(axis.display());
        script.append("tics nomirror ");
        script.append(tics.as_str());
        script.append("\n");
        script.append(label.as_str());
        script.append(range.as_str());
        script.append(logscale.as_str());
        script.append(major.as_str());
        script.append(minor.as_str());
        script
    }
}

fn tic_list_script(tics: &TicLabels) -> (list: Option<String>)
    ensures
        text_view(list) == tics.list(),
{
    let n: usize = if tics.labels.len() <= tics.positions.len() {
        tics.labels.len()
    } else {
        tics.positions.len()
    };
    if n == 0 {
        return None;
    }
    let mut list = String::new();
    let mut i: usize = 0;
    while i < n
        invariant
            i <= n,
            n <= tics.labels@.len(),
            n <= tics.positions@.len(),
            list@ == tic_list(tics.label_texts(), tics.position_texts(), i as nat),
        decreases n - i,
    {
        let mut entry = "'".to_owned();
        entry.append(tics.labels[i].as_str());
        entry.append("' ");
        entry.append(tics.positions[i].text());
        assert(entry@ == tic_entry(tics.label_texts()[i as int], tics.position_texts()[i as int]));
        if i == 0 {
            list = entry;
        } else {
            list.append(", ");
            list.append(entry.as_str());
        }
        i = i + 1;
    }
    Some(list)
}

fn tics_script(tics: &Option<String>) -> (s: String)
    ensures
        s@ == tics_text(text_view(*tics)),
{
    match tics {
        None => String::new(),
        Some(list) => {
            let mut s = "(".to_owned();
            s.append(list.as_str());
            s.append(")");
            s
        },
    }
}

fn label_script(axis: Axis, label: &Option<String>) -> (s: String)
    ensures
        s@ == label_text(axis, text_view(*label)),
{
    match label {
        None => String::new(),
        Some(label) => {
            let mut s = "set ".to_owned();
            s.append(axis.display());
            s.append("label '");
            s.append(label.as_str());
            s.append("'\n");
            s
        },
    }
}

fn range_script(axis: Axis, range: &Option<(Number, Number)>) -> (s: String)
    ensures
        s@ == range_text(axis, range_view(*range)),
{
    match range {
        None => String::new(),
        Some((low, high)) => {
            let mut s = "set ".to_owned();
            s.append(axis.display());
            s.append("range [");
            s.append(low.text());
            s.append(":");
            s.append(high.text());
            s.append("]\n");
            s
        },
    }
}

fn logscale_script(axis: Axis, logarithmic: bool) -> (s: String)
    ensures
        s@ == logscale_text(axis, logarithmic),
{
    if logarithmic {
        let mut s = "set logscale ".to_owned();
        s.append(axis.display());
        s.append("\n");
        s
    } else {
        String::new()
    }
}


/// A hidden axis gets one directive, which unsets its tics: whatever else
/// its properties hold leaves no trace.
pub proof fn lemma_hidden_axis_text(axis: Axis, properties: AxisPropertiesView)
    requires
        properties.hidden,
    ensures
        axis_text(axis, properties) == "unset "@ + axis.text() + "tics\n"@,
        forall|other: AxisPropertiesView|
            other.hidden ==> #[trigger] axis_text(axis, other) == axis_text(axis, properties),
{
}

} // verus!
