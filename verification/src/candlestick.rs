//! "Candlestick" plots

use vstd::prelude::*;
use vstd::string::*;
use crate::axis::{Axes, Axis};
use crate::data::column_views;
use crate::figure::{axis_factor, registered, Figure};
use crate::traits::{made_by, Plot};
use crate::number::{number_view, positive, Number, NumberView};
use crate::style::{
    color_script, color_text, legend_script, legend_text, line_type_script, line_type_text,
    line_width_script, line_width_text, text_view, Color, LineType,
};

verus! {

/// Properties common to candlestick plots
#[derive(Clone, Debug)]
pub struct Properties {
    color: Option<Color>,
    label: Option<String>,
    line_type: LineType,
    line_width: Option<Number>,
}

/// What the [`Properties`] of a candlestick plot hold.
pub struct PropertiesView {
    /// The line color, if set.
    pub color: Option<Color>,
    /// The legend label, if any.
    pub label: Option<Seq<char>>,
    /// The line type.
    pub line_type: LineType,
    /// The line width, if set.
    pub line_width: Option<NumberView>,
}

/// A candlestick consists of a box and two whiskers that extend beyond the box
#[derive(Debug)]
pub struct Candlesticks {
    /// X coordinate of the candlestick
    pub x: Vec<u64>,
    /// Y coordinate of the end point of the bottom whisker
    pub whisker_min: Vec<u64>,
    /// Y coordinate of the bottom of the box
    pub box_min: Vec<u64>,
    /// Y coordinate of the top of the box
    pub box_high: Vec<u64>,
    /// Y coordinate of the end point of the top whisker
    pub whisker_high: Vec<u64>,
}

impl Candlesticks {
    /// The five columns of the plot, in the order in which gnuplot reads
    /// them: X, bottom of the box, end of the bottom whisker, end of the top
    /// whisker, top of the box.
    pub open spec fn columns(&self) -> Seq<Seq<u64>> {
        seq![self.x@, self.box_min@, self.whisker_min@, self.whisker_high@, self.box_high@]
    }
}

/// The style of a candlestick plot: `with candlesticks`, then line type, line
/// width and color, each optional one only if set, then its title.
pub open spec fn candlestick_text(properties: PropertiesView) -> Seq<char> {
    "with candlesticks "@ + line_type_text(properties.line_type) + line_width_text(
        properties.line_width,
    ) + color_text(properties.color) + legend_text(properties.label)
}

impl View for Properties {
    type V = PropertiesView;

    closed spec fn view(&self) -> PropertiesView {
        PropertiesView {
            color: self.color,
            label: text_view(self.label),
            line_type: self.line_type,
            line_width: number_view(self.line_width),
        }
    }
}

impl PropertiesView {
    /// What the properties of a candlestick plot hold before they are
    /// configured: solid lines and nothing else.
    pub open spec fn initial() -> PropertiesView {
        PropertiesView { color: None, label: None, line_type: LineType::Solid, line_width: None }
    }
}

impl Default for Properties {
    /// Properties with nothing configured.
    fn default() -> (properties: Properties)
        ensures
            properties@ == PropertiesView::initial(),
    {
        Properties { color: None, label: None, line_type: LineType::Solid, line_width: None }
    }
}

impl Properties {
    /// Sets the line color
    pub fn color(self, color: Color) -> (properties: Properties)
        ensures
            properties@ == (PropertiesView { color: Some(color), ..self@ }),
    {
        let mut properties = self;
        properties.color = Some(color);
        properties
    }

    /// Sets the legend label
    pub fn label(self, label: &str) -> (properties: Properties)
        ensures
            properties@ == (PropertiesView { label: Some(label@), ..self@ }),
    {
        let mut properties = self;
        properties.label = Some(label.to_owned());
        properties
    }

    /// Changes the line type
    ///
    /// **Note** By default `Solid` lines are used
    pub fn line_type(self, line_type: LineType) -> (properties: Properties)
        ensures
            properties@ == (PropertiesView { line_type, ..self@ }),
    {
        let mut properties = self;
        properties.line_type = line_type;
        properties
    }

    /// Changes the width of the line, which must be greater than zero
    pub fn line_width(self, line_width: Number) -> (properties: Properties)
        requires
            positive(line_width@.bits),
        ensures
            properties@ == (PropertiesView { line_width: Some(line_width@), ..self@ }),
    {
        let mut properties = self;
        properties.line_width = Some(line_width);
        properties
    }

    /// The style clauses of the candlesticks in a plot command.
    pub fn script(&self) -> (script: String)
        ensures
            script@ == candlestick_text(self@),
    {
        let line_type = line_type_script(self.line_type);
        let line_width = line_width_script(&self.line_width);
        let color = color_script(self.color);
        let legend = legend_script(&self.label);
        let mut script = "with candlesticks ".to_owned();
        script.append(line_type.as_str());
        script.append(line_width.as_str());
        script.append(color.as_str());
        script.append(legend.as_str());
        script
    }
}

impl Plot<Candlesticks> for Figure {
    type Properties = Properties;

    open spec fn accepts(this: Candlesticks, takes: spec_fn(Properties) -> bool) -> bool {
        forall|start: Properties|
            start@ == PropertiesView::initial() ==> takes(start)
    }

    /// The candlesticks are registered with five columns: X, scaled by the
    /// factor of the bottom axis, then the four Y coordinates, scaled by the
    /// factor of the left axis.
    open spec fn plotted(
        before: Figure,
        this: Candlesticks,
        makes: spec_fn(Properties, Properties) -> bool,
        product: spec_fn(u64, u64, u64) -> bool,
        after: Figure,
    ) -> bool {
        exists|start: Properties, properties: Properties|
            start@ == PropertiesView::initial()
                && #[trigger] makes(start, properties) && registered(
                before@,
                after@,
                this.columns(),
                seq![
                    axis_factor(before@.axes, Axis::BottomX),
                    axis_factor(before@.axes, Axis::LeftY),
                    axis_factor(before@.axes, Axis::LeftY),
                    axis_factor(before@.axes, Axis::LeftY),
                    axis_factor(before@.axes, Axis::LeftY),
                ],
                candlestick_text(properties@),
                product,
            )
    }

    fn plot<F, S>(&mut self, candlesticks: Candlesticks, configure: F, scale: &S) where
        F: FnOnce(Properties) -> Properties,
        S: Fn(u64, u64) -> u64,
     {
        let (x_factor, y_factor) = self.scale_factors(Axes::BottomXLeftY);
        let ghost wanted = candlesticks.columns();
        let Candlesticks { x, whisker_min, box_min, box_high, whisker_high } = candlesticks;
        let mut columns: Vec<Vec<u64>> = Vec::new();
        columns.push(x);
        columns.push(box_min);
        columns.push(whisker_min);
        columns.push(whisker_high);
        columns.push(box_high);
        let mut factors: Vec<u64> = Vec::new();
        factors.push(x_factor);
        factors.push(y_factor);
        factors.push(y_factor);
        factors.push(y_factor);
        factors.push(y_factor);
        let start = Properties::default();
        let ghost initial = start;
        let properties = configure(start);
        let script = properties.script();
        proof {
            assert(column_views(columns@) =~= wanted);
            assert(factors@ =~= seq![x_factor, y_factor, y_factor, y_factor, y_factor]);
        }
        self.register(&columns, &factors, script, scale);
        assert(made_by(configure)(initial, properties));
    }
}

} // verus!
