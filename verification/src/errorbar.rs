//! Error bar plots

use vstd::prelude::*;
use vstd::string::*;
use crate::axis::{Axes, Axis};
use crate::data::column_views;
use crate::figure::{axis_factor, registered, Figure};
use crate::traits::{made_by, Plot};
use crate::number::{number_view, positive, Number, NumberView};
use crate::style::{
    color_script, color_text, legend_script, legend_text, line_type_script, line_type_text,
    line_width_script, line_width_text, point_size_script, point_size_text, point_type_script,
    point_type_text, text_view, Color, LineType, PointType,
};

verus! {

/// Properties common to error bar plots
#[derive(Clone, Debug)]
pub struct Properties {
    color: Option<Color>,
    label: Option<String>,
    line_type: LineType,
    linewidth: Option<Number>,
    point_size: Option<Number>,
    point_type: Option<PointType>,
    style: Style,
}

/// What the [`Properties`] of an error bar plot hold.
pub struct PropertiesView {
    /// The color of the error bars, if set.
    pub color: Option<Color>,
    /// The legend label, if any.
    pub label: Option<Seq<char>>,
    /// The line type.
    pub line_type: LineType,
    /// The line width, if set.
    pub line_width: Option<NumberView>,
    /// The point size, if set.
    pub point_size: Option<NumberView>,
    /// The point type, if set.
    pub point_type: Option<PointType>,
    /// The kind of error bars.
    pub style: Style,
}

/// The kind of an error bar plot.
#[derive(Clone, Copy, Debug)]
pub enum Style {
    XErrorBars,
    XErrorLines,
    YErrorBars,
    YErrorLines,
}

/// Asymmetric error bar plots
#[derive(Debug)]
pub enum ErrorBar {
    /// Horizontal error bars
    XErrorBars {
        /// X coordinate of the data points
        x: Vec<u64>,
        /// Y coordinate of the data points
        y: Vec<u64>,
        /// X coordinate of the left end of the error bar
        x_low: Vec<u64>,
        /// X coordinate of the right end of the error bar
        x_high: Vec<u64>,
    },
    /// Horizontal error bars, where each point is joined by a line
    XErrorLines {
        /// X coordinate of the data points
        x: Vec<u64>,
        /// Y coordinate of the data points
        y: Vec<u64>,
        /// X coordinate of the left end of the error bar
        x_low: Vec<u64>,
        /// X coordinate of the right end of the error bar
        x_high: Vec<u64>,
    },
    /// Vertical error bars
    YErrorBars {
        /// X coordinate of the data points
        x: Vec<u64>,
        /// Y coordinate of the data points
        y: Vec<u64>,
        /// Y coordinate of the bottom of the error bar
        y_low: Vec<u64>,
        /// Y coordinate of the top of the error bar
        y_high: Vec<u64>,
    },
    /// Vertical error bars, where each point is joined by a line
    YErrorLines {
        /// X coordinate of the data points
        x: Vec<u64>,
        /// Y coordinate of the data points
        y: Vec<u64>,
        /// Y coordinate of the bottom of the error bar
        y_low: Vec<u64>,
        /// Y coordinate of the top of the error bar
        y_high: Vec<u64>,
    },
}

impl Style {
    /// The word for this kind of error bars.
    pub open spec fn text(self) -> Seq<char> {
        match self {
            Style::XErrorBars => "xerrorbars"@,
            Style::XErrorLines => "xerrorlines"@,
            Style::YErrorBars => "yerrorbars"@,
            Style::YErrorLines => "yerrorlines"@,
        }
    }

    /// The bars are horizontal: their ends are X coordinates.
    pub open spec fn horizontal(self) -> bool {
        self is XErrorBars || self is XErrorLines
    }

    /// The word for this kind of error bars in a script.
    pub fn display(&self) -> (s: &'static str)
        ensures
            s@ == self.text(),
    {
        match *self {
            Style::XErrorBars => "xerrorbars",
            Style::XErrorLines => "xerrorlines",
            Style::YErrorBars => "yerrorbars",
            Style::YErrorLines => "yerrorlines",
        }
    }

    /// Whether the bars are horizontal.
    pub fn is_horizontal(&self) -> (b: bool)
        ensures
            b == self.horizontal(),
    {
        match *self {
            Style::XErrorBars | Style::XErrorLines => true,
            Style::YErrorBars | Style::YErrorLines => false,
        }
    }
}

impl ErrorBar {
    /// The kind of these error bars.
    pub open spec fn kind(&self) -> Style {
        match *self {
            ErrorBar::XErrorBars { .. } => Style::XErrorBars,
            ErrorBar::XErrorLines { .. } => Style::XErrorLines,
            ErrorBar::YErrorBars { .. } => Style::YErrorBars,
            ErrorBar::YErrorLines { .. } => Style::YErrorLines,
        }
    }

    /// The four columns of the plot: the X and Y coordinates of the data
    /// points, then the low and the high end of each bar.
    pub open spec fn columns(&self) -> Seq<Seq<u64>> {
        match *self {
            ErrorBar::XErrorBars { x, y, x_low, x_high }
            | ErrorBar::XErrorLines { x, y, x_low, x_high } => seq![x@, y@, x_low@, x_high@],
            ErrorBar::YErrorBars { x, y, y_low, y_high }
            | ErrorBar::YErrorLines { x, y, y_low, y_high } => seq![x@, y@, y_low@, y_high@],
        }
    }

    /// The kind of these error bars.
    pub fn style(&self) -> (style: Style)
        ensures
            style == self.kind(),
    {
        match *self {
            ErrorBar::XErrorBars { .. } => Style::XErrorBars,
            ErrorBar::XErrorLines { .. } => Style::XErrorLines,
            ErrorBar::YErrorBars { .. } => Style::YErrorBars,
            ErrorBar::YErrorLines { .. } => Style::YErrorLines,
        }
    }

    /// The four columns of the plot.
    pub fn into_columns(self) -> (columns: (Vec<u64>, Vec<u64>, Vec<u64>, Vec<u64>))
        ensures
            seq![columns.0@, columns.1@, columns.2@, columns.3@] == self.columns(),
    {
        match self {
            ErrorBar::XErrorBars { x, y, x_low, x_high }
            | ErrorBar::XErrorLines { x, y, x_low, x_high } => (x, y, x_low, x_high),
            ErrorBar::YErrorBars { x, y, y_low, y_high }
            | ErrorBar::YErrorLines { x, y, y_low, y_high } => (x, y, y_low, y_high),
        }
    }
}

/// The style of an error bar plot: `with` and its kind, then line type, line
/// width, color, point type and point size, each optional one only if set,
/// then its title.
pub open spec fn errorbar_text(properties: PropertiesView) -> Seq<char> {
    "with "@ + properties.style.text() + " "@ + line_type_text(properties.line_type)
        + line_width_text(properties.line_width) + color_text(properties.color) + point_type_text(
        properties.point_type,
    ) + point_size_text(properties.point_size) + legend_text(properties.label)
}

impl View for Properties {
    type V = PropertiesView;

    closed spec fn view(&self) -> PropertiesView {
        PropertiesView {
            color: self.color,
            label: text_view(self.label),
            line_type: self.line_type,
            line_width: number_view(self.linewidth),
            point_size: number_view(self.point_size),
            point_type: self.point_type,
            style: self.style,
        }
    }
}

impl PropertiesView {
    /// What the properties of an error bar plot of kind `style` hold before
    /// they are configured: solid lines and nothing else.
    pub open spec fn initial(style: Style) -> PropertiesView {
        PropertiesView {
            color: None,
            label: None,
            line_type: LineType::Solid,
            line_width: None,
            point_size: None,
            point_type: None,
            style,
        }
    }
}

impl Properties {
    /// The properties of an error bar plot of kind `style` with nothing
    /// configured.
    pub fn from_style(style: Style) -> (properties: Properties)
        ensures
            properties@ == PropertiesView::initial(style),
    {
        Properties {
            color: None,
            label: None,
            line_type: LineType::Solid,
            linewidth: None,
            point_type: None,
            point_size: None,
            style,
        }
    }

    /// Changes the color of the error bars
    pub fn color(self, color: Color) -> (properties: Properties)
        ensures
            properties@ == (PropertiesView { color: Some(color), ..self@ }),
    {
        let mut properties = self;
        properties.color = Some(color);
        properties
    }

    /// Sets the legend label
    pub fn label(self, label: &str) -> (properties: Properties)
        ensures
            properties@ == (PropertiesView { label: Some(label@), ..self@ }),
    {
        let mut properties = self;
        properties.label = Some(label.to_owned());
        properties
    }

    /// Change the line type
    ///
    /// **Note** By default `Solid` lines are used
    pub fn line_type(self, lt: LineType) -> (properties: Properties)
        ensures
            properties@ == (PropertiesView { line_type: lt, ..self@ }),
    {
        let mut properties = self;
        properties.line_type = lt;
        properties
    }

    /// Changes the linewidth, which must be greater than zero
    pub fn line_width(self, lw: Number) -> (properties: Properties)
        requires
            positive(lw@.bits),
        ensures
            properties@ == (PropertiesView { line_width: Some(lw@), ..self@ }),
    {
        let mut properties = self;
        properties.linewidth = Some(lw);
        properties
    }

    /// Changes the size of the points, which must be greater than zero
    pub fn point_size(self, ps: Number) -> (properties: Properties)
        requires
            positive(ps@.bits),
        ensures
            properties@ == (PropertiesView { point_size: Some(ps@), ..self@ }),
    {
        let mut properties = self;
        properties.point_size = Some(ps);
        properties
    }

    /// Changes the point type
    pub fn point_type(self, pt: PointType) -> (properties: Properties)
        ensures
            properties@ == (PropertiesView { point_type: Some(pt), ..self@ }),
    {
        let mut properties = self;
        properties.point_type = Some(pt);
        properties
    }

    /// The style clauses of the error bars in a plot command.
    pub fn script(&self) -> (script: String)
        ensures
            script@ == errorbar_text(self@),
    {
        let line_type = line_type_script(self.line_type);
        let line_width = line_width_script(&self.linewidth);
        let color = color_script(self.color);
        let point_type = point_type_script(self.point_type);
        let point_size = point_size_script(&self.point_size);
        let legend = legend_script(&self.label);
        let mut script = "with ".to_owned();
        script.append(self.style.display());
        script.append(" ");
        script.append(line_type.as_str());
        script.append(line_width.as_str());
        script.append(color.as_str());
        script.append(point_type.as_str());
        script.append(point_size.as_str());
        script.append(legend.as_str());
        script
    }
}

impl Plot<ErrorBar> for Figure {
    type Properties = Properties;

    open spec fn accepts(this: ErrorBar, takes: spec_fn(Properties) -> bool) -> bool {
        forall|start: Properties|
            start@ == PropertiesView::initial(this.kind()) ==> takes(start)
    }

    /// The error bars are registered with four columns: X and Y, scaled by
    /// the factors of the bottom and of the left axis, then the low and the
    /// high end of the bars, scaled by the factor of the axis along which
    /// the bars run.
    open spec fn plotted(
        before: Figure,
        this: ErrorBar,
        makes: spec_fn(Properties, Properties) -> bool,
        product: spec_fn(u64, u64, u64) -> bool,
        after: Figure,
    ) -> bool {
        exists|start: Properties, properties: Properties|
            start@ == PropertiesView::initial(this.kind())
                && #[trigger] makes(start, properties) && registered(
                before@,
                after@,
                this.columns(),
                seq![
                    axis_factor(before@.axes, Axis::BottomX),
                    axis_factor(before@.axes, Axis::LeftY),
                    axis_factor(
                        before@.axes,
                        if this.kind().horizontal() {
                            Axis::BottomX
                        } else {
                            Axis::LeftY
                        },
                    ),
                    axis_factor(
                        before@.axes,
                        if this.kind().horizontal() {
                            Axis::BottomX
                        } else {
                            Axis::LeftY
                        },
                    ),
                ],
                errorbar_text(properties@),
                product,
            )
    }

    fn plot<F, S>(&mut self, e: ErrorBar, configure: F, scale: &S) where
        F: FnOnce(Properties) -> Properties,
        S: Fn(u64, u64) -> u64,
     {
        let (x_factor, y_factor) = self.scale_factors(Axes::BottomXLeftY);
        let style = e.style();
        let e_factor = if style.is_horizontal() {
            x_factor
        } else {
            y_factor
        };
        let ghost wanted = e.columns();
        let (x, y, low, high) = e.into_columns();
        let mut columns: Vec<Vec<u64>> = Vec::new();
        columns.push(x);
        columns.push(y);
        columns.push(low);
        columns.push(high);
        let mut factors: Vec<u64> = Vec::new();
        factors.push(x_factor);
        factors.push(y_factor);
        factors.push(e_factor);
        factors.push(e_factor);
        let start = Properties::from_style(style);
        let ghost initial = start;
        let properties = configure(start);
        let script = properties.script();
        proof {
            assert(column_views(columns@) =~= wanted);
            assert(factors@ =~= seq![x_factor, y_factor, e_factor, e_factor]);
        }
        self.register(&columns, &factors, script, scale);
        assert(made_by(configure)(initial, properties));
    }
}

} // verus!
