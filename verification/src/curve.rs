//! Simple "curve" like plots

use vstd::prelude::*;
use vstd::string::*;
use crate::data::column_views;
use crate::figure::{axes_or_default, axis_factor, registered, Figure};
use crate::traits::{made_by, Plot};
use crate::axis::Axes;
use crate::number::{number_view, positive, Number, NumberView};
use crate::style::{
    axes_script, axes_text, color_script, color_text, legend_script, legend_text,
    line_type_script, line_type_text, line_width_script, line_width_text, point_size_script,
    point_size_text, point_type_script, point_type_text, text_view, Color, LineType, PointType,
};

verus! {

/// Properties common to simple "curve" like plots
#[derive(Clone, Debug)]
pub struct Properties {
    axes: Option<Axes>,
    color: Option<Color>,
    label: Option<String>,
    line_type: LineType,
    line_width: Option<Number>,
    point_type: Option<PointType>,
    point_size: Option<Number>,
    style: Style,
}

/// What the [`Properties`] of a curve hold.
pub struct PropertiesView {
    /// The axes to plot against, if chosen.
    pub axes: Option<Axes>,
    /// The line color, if set.
    pub color: Option<Color>,
    /// The legend label, if any.
    pub label: Option<Seq<char>>,
    /// The line type.
    pub line_type: LineType,
    /// The line width, if set.
    pub line_width: Option<NumberView>,
    /// The point type, if set.
    pub point_type: Option<PointType>,
    /// The point size, if set.
    pub point_size: Option<NumberView>,
    /// The kind of curve.
    pub style: Style,
}

/// Types of "curve" plots
pub enum Curve {
    /// A minimally sized dot on each data point
    Dots {
        /// X coordinate of the data points
        x: Vec<u64>,
        /// Y coordinate of the data points
        y: Vec<u64>,
    },
    /// A vertical "impulse" on each data point
    Impulses {
        /// X coordinate of the data points
        x: Vec<u64>,
        /// Y coordinate of the data points
        y: Vec<u64>,
    },
    /// Line that joins the data points
    Lines {
        /// X coordinate of the data points
        x: Vec<u64>,
        /// Y coordinate of the data points
        y: Vec<u64>,
    },
    /// Line with a point on each data point
    LinesPoints {
        /// X coordinate of the data points
        x: Vec<u64>,
        /// Y coordinate of the data points
        y: Vec<u64>,
    },
    /// A point on each data point
    Points {
        /// X coordinate of the data points
        x: Vec<u64>,
        /// Y coordinate of the data points
        y: Vec<u64>,
    },
    /// An step `_|` between each data point
    Steps {
        /// X coordinate of the data points
        x: Vec<u64>,
        /// Y coordinate of the data points
        y: Vec<u64>,
    },
}

/// The kind of a curve.
#[derive(Clone, Copy, Debug)]
pub enum Style {
    Dots,
    Impulses,
    Lines,
    LinesPoints,
    Points,
    Steps,
}

impl Style {
    /// The word for this kind of curve.
    pub open spec fn text(self) -> Seq<char> {
        match self {
            Style::Dots => "dots"@,
            Style::Impulses => "impulses"@,
            Style::Lines => "lines"@,
            Style::LinesPoints => "linespoints"@,
            Style::Points => "points"@,
            Style::Steps => "steps"@,
        }
    }

    /// The word for this kind of curve in a script.
    pub fn display(&self) -> (s: &'static str)
        ensures
            s@ == self.text(),
    {
        match *self {
            Style::Dots => "dots",
            Style::Impulses => "impulses",
            Style::Lines => "lines",
            Style::LinesPoints => "linespoints",
            Style::Points => "points",
            Style::Steps => "steps",
        }
    }
}

impl Curve {
    /// The kind of this curve.
    pub open spec fn kind(&self) -> Style {
        match *self {
            Curve::Dots { .. } => Style::Dots,
            Curve::Impulses { .. } => Style::Impulses,
            Curve::Lines { .. } => Style::Lines,
            Curve::LinesPoints { .. } => Style::LinesPoints,
            Curve::Points { .. } => Style::Points,
            Curve::Steps { .. } => Style::Steps,
        }
    }

    /// The X coordinates of the data points.
    pub open spec fn xs(&self) -> Seq<u64> {
        match *self {
            Curve::Dots { x, .. }
            | Curve::Impulses { x, .. }
            | Curve::Lines { x, .. }
            | Curve::LinesPoints { x, .. }
            | Curve::Points { x, .. }
            | Curve::Steps { x, .. } => x@,
        }
    }

    /// The Y coordinates of the data points.
    pub open spec fn ys(&self) -> Seq<u64> {
        match *self {
            Curve::Dots { y, .. }
            | Curve::Impulses { y, .. }
            | Curve::Lines { y, .. }
            | Curve::LinesPoints { y, .. }
            | Curve::Points { y, .. }
            | Curve::Steps { y, .. } => y@,
        }
    }

    /// The kind of this curve.
    pub fn style(&self) -> (style: Style)
        ensures
            style == self.kind(),
    {
        match *self {
            Curve::Dots { .. } => Style::Dots,
            Curve::Impulses { .. } => Style::Impulses,
            Curve::Lines { .. } => Style::Lines,
            Curve::LinesPoints { .. } => Style::LinesPoints,
            Curve::Points { .. } => Style::Points,
            Curve::Steps { .. } => Style::Steps,
        }
    }

    /// The X and the Y coordinates of the data points.
    pub fn into_columns(self) -> (columns: (Vec<u64>, Vec<u64>))
        ensures
            columns.0@ == self.xs(),
            columns.1@ == self.ys(),
    {
        match self {
            Curve::Dots { x, y }
            | Curve::Impulses { x, y }
            | Curve::Lines { x, y }
            | Curve::LinesPoints { x, y }
            | Curve::Points { x, y }
            | Curve::Steps { x, y } => (x, y),
        }
    }
}

/// The style of a curve: the clause for its axes, `with` and its kind, then
/// line type, line width, color, point type and point size, each optional one
/// only if set, then its title.
pub open spec fn curve_text(properties: PropertiesView) -> Seq<char> {
    axes_text(properties.axes) + "with "@ + properties.style.text() + " "@ + line_type_text(
        properties.line_type,
    ) + line_width_text(properties.line_width) + color_text(properties.color) + point_type_text(
        properties.point_type,
    ) + point_size_text(properties.point_size) + legend_text(properties.label)
}

impl View for Properties {
    type V = PropertiesView;

    closed spec fn view(&self) -> PropertiesView {
        PropertiesView {
            axes: self.axes,
            color: self.color,
            label: text_view(self.label),
            line_type: self.line_type,
            line_width: number_view(self.line_width),
            point_type: self.point_type,
            point_size: number_view(self.point_size),
            style: self.style,
        }
    }
}

impl PropertiesView {
    /// What the properties of a curve of kind `style` hold before they are
    /// configured: solid lines and nothing else.
    pub open spec fn initial(style: Style) -> PropertiesView {
        PropertiesView {
            axes: None,
            color: None,
            label: None,
            line_type: LineType::Solid,
            line_width: None,
            point_type: None,
            point_size: None,
            style,
        }
    }
}

impl Properties {
    /// The properties of a curve of kind `style` with nothing configured.
    pub fn from_style(style: Style) -> (properties: Properties)
        ensures
            properties@ == PropertiesView::initial(style),
    {
        Properties {
            axes: None,
            color: None,
            label: None,
            line_type: LineType::Solid,
            line_width: None,
            point_size: None,
            point_type: None,
            style,
        }
    }

    /// Select the axes to plot against
    ///
    /// **Note** By default, the `BottomXLeftY` axes are used
    pub fn axes(self, axes: Axes) -> (properties: Properties)
        ensures
            properties@ == (PropertiesView { axes: Some(axes), ..self@ }),
    {
        let mut properties = self;
        properties.axes = Some(axes);
        properties
    }

    /// Sets the line color
    pub fn color(self, color: Color) -> (properties: Properties)
        ensures
            properties@ == (PropertiesView { color: Some(color), ..self@ }),
    {
        let mut properties = self;
        properties.color = Some(color);
        properties
    }

    /// Sets the legend label
    pub fn label(self, label: &str) -> (properties: Properties)
        ensures
            properties@ == (PropertiesView { label: Some(label@), ..self@ }),
    {
        let mut properties = self;
        properties.label = Some(label.to_owned());
        properties
    }

    /// Changes the line type
    ///
    /// **Note** By default `Solid` lines are used
    pub fn line_type(self, lt: LineType) -> (properties: Properties)
        ensures
            properties@ == (PropertiesView { line_type: lt, ..self@ }),
    {
        let mut properties = self;
        properties.line_type = lt;
        properties
    }

    /// Changes the width of the line, which must be greater than zero
    pub fn line_width(self, lw: Number) -> (properties: Properties)
        requires
            positive(lw@.bits),
        ensures
            properties@ == (PropertiesView { line_width: Some(lw@), ..self@ }),
    {
        let mut properties = self;
        properties.line_width = Some(lw);
        properties
    }

    /// Changes the size of the points, which must be greater than zero
    pub fn point_size(self, ps: Number) -> (properties: Properties)
        requires
            positive(ps@.bits),
        ensures
            properties@ == (PropertiesView { point_size: Some(ps@), ..self@ }),
    {
        let mut properties = self;
        properties.point_size = Some(ps);
        properties
    }

    /// Changes the point type
    pub fn point_type(self, pt: PointType) -> (properties: Properties)
        ensures
            properties@ == (PropertiesView { point_type: Some(pt), ..self@ }),
    {
        let mut properties = self;
        properties.point_type = Some(pt);
        properties
    }

    /// The axes chosen for the curve, if any.
    pub fn chosen_axes(&self) -> (axes: Option<Axes>)
        ensures
            axes == self@.axes,
    {
        self.axes
    }

    /// The style clauses of the curve in a plot command.
    pub fn script(&self) -> (script: String)
        ensures
            script@ == curve_text(self@),
    {
        let line_type = line_type_script(self.line_type);
        let line_width = line_width_script(&self.line_width);
        let color = color_script(self.color);
        let point_type = point_type_script(self.point_type);
        let point_size = point_size_script(&self.point_size);
        let legend = legend_script(&self.label);
        let mut script = axes_script(self.axes);
        script.append("with ");
        script.append(self.style.display());
        script.append(" ");
        script.append(line_type.as_str());
        script.append(line_width.as_str());
        script.append(color.as_str());
        script.append(point_type.as_str());
        script.append(point_size.as_str());
        script.append(legend.as_str());
        script
    }
}

impl Plot<Curve> for Figure {
    type Properties = Properties;

    open spec fn accepts(this: Curve, takes: spec_fn(Properties) -> bool) -> bool {
        forall|start: Properties|
            start@ == PropertiesView::initial(this.kind()) ==> takes(start)
    }

    /// The curve is registered with two columns, X and Y, scaled by the
    /// factors of the two axes that its properties choose.
    open spec fn plotted(
        before: Figure,
        this: Curve,
        makes: spec_fn(Properties, Properties) -> bool,
        product: spec_fn(u64, u64, u64) -> bool,
        after: Figure,
    ) -> bool {
        exists|start: Properties, properties: Properties|
            start@ == PropertiesView::initial(this.kind())
                && #[trigger] makes(start, properties) && registered(
                before@,
                after@,
                seq![this.xs(), this.ys()],
                seq![
                    axis_factor(before@.axes, axes_or_default(properties@.axes).x_axis()),
                    axis_factor(before@.axes, axes_or_default(properties@.axes).y_axis()),
                ],
                curve_text(properties@),
                product,
            )
    }

    fn plot<F, S>(&mut self, curve: Curve, configure: F, scale: &S) where
        F: FnOnce(Properties) -> Properties,
        S: Fn(u64, u64) -> u64,
     {
        let start = Properties::from_style(curve.style());
        let ghost initial = start;
        let properties = configure(start);
        let axes = match properties.chosen_axes() {
            Some(axes) => axes,
            None => Axes::BottomXLeftY,
        };
        let (x_factor, y_factor) = self.scale_factors(axes);
        let ghost xs = curve.xs();
        let ghost ys = curve.ys();
        let (x, y) = curve.into_columns();
        let mut columns: Vec<Vec<u64>> = Vec::new();
        columns.push(x);
        columns.push(y);
        let mut factors: Vec<u64> = Vec::new();
        factors.push(x_factor);
        factors.push(y_factor);
        let script = properties.script();
        proof {
            assert(column_views(columns@) =~= seq![xs, ys]);
            assert(factors@ =~= seq![
                axis_factor(old(self)@.axes, axes_or_default(properties@.axes).x_axis()),
                axis_factor(old(self)@.axes, axes_or_default(properties@.axes).y_axis()),
            ]);
        }
        self.register(&columns, &factors, script, scale);
        assert(made_by(configure)(initial, properties));
    }
}

} // verus!
