//! Filled curve plots

use vstd::prelude::*;
use vstd::string::*;
use crate::data::column_views;
use crate::figure::{axes_or_default, axis_factor, registered, Figure};
use crate::traits::{made_by, Plot};
use crate::axis::Axes;
use crate::number::{number_view, unit_fraction, Number, NumberView};
use crate::style::{axes_script, axes_text, color_script, color_text, legend_text, Color};

verus! {

/// Properties common to filled curve plots
#[derive(Clone, Debug)]
pub struct Properties {
    axes: Option<Axes>,
    color: Option<Color>,
    label: Option<&'static str>,
    opacity: Option<Number>,
}

/// What the [`Properties`] of a filled curve hold.
pub struct PropertiesView {
    /// The axes to plot against, if chosen.
    pub axes: Option<Axes>,
    /// The fill color, if set.
    pub color: Option<Color>,
    /// The legend label, if any.
    pub label: Option<Seq<char>>,
    /// The opacity of the fill color, if set.
    pub opacity: Option<NumberView>,
}

/// Fills the area between two curves
#[derive(Debug)]
pub struct FilledCurve {
    /// X coordinate of the data points of both curves
    pub x: Vec<u64>,
    /// Y coordinate of the data points of the first curve
    pub y1: Vec<u64>,
    /// Y coordinate of the data points of the second curve
    pub y2: Vec<u64>,
}

impl FilledCurve {
    /// The three columns of the plot: X, then the Y coordinates of the first
    /// and of the second curve.
    pub open spec fn columns(&self) -> Seq<Seq<u64>> {
        seq![self.x@, self.y1@, self.y2@]
    }
}

/// The solid-fill clause, empty where no opacity is set.
pub open spec fn opacity_text(opacity: Option<NumberView>) -> Seq<char> {
    match opacity {
        None => Seq::empty(),
        Some(opacity) => "solid "@ + opacity.text + " "@,
    }
}

/// The style of a filled curve: the clause for its axes, `with filledcurves`,
/// the fill style with the opacity if set and always without border, the
/// color if set, then its title.
pub open spec fn filledcurve_text(properties: PropertiesView) -> Seq<char> {
    axes_text(properties.axes) + "with filledcurves "@ + "fillstyle "@ + opacity_text(
        properties.opacity,
    ) + "noborder "@ + color_text(properties.color) + legend_text(properties.label)
}

/// The view of an optional string that lives as long as the program.
pub open spec fn static_text_view(text: Option<&'static str>) -> Option<Seq<char>> {
    match text {
        None => None,
        Some(t) => Some(t@),
    }
}

impl View for Properties {
    type V = PropertiesView;

    closed spec fn view(&self) -> PropertiesView {
        PropertiesView {
            axes: self.axes,
            color: self.color,
            label: static_text_view(self.label),
            opacity: number_view(self.opacity),
        }
    }
}

impl PropertiesView {
    /// What the properties of a filled curve hold before they are
    /// configured: nothing.
    pub open spec fn initial() -> PropertiesView {
        PropertiesView { axes: None, color: None, label: None, opacity: None }
    }
}

impl Default for Properties {
    /// Properties with nothing configured.
    fn default() -> (properties: Properties)
        ensures
            properties@ == PropertiesView::initial(),
    {
        Properties { axes: None, color: None, label: None, opacity: None }
    }
}

impl Properties {
    /// Select axes to plot against
    ///
    /// **Note** By default, the `BottomXLeftY` axes are used
    pub fn axes(self, axes: Axes) -> (properties: Properties)
        ensures
            properties@ == (PropertiesView { axes: Some(axes), ..self@ }),
    {
        let mut properties = self;
        properties.axes = Some(axes);
        properties
    }

    /// Sets the fill color
    pub fn color(self, color: Color) -> (properties: Properties)
        ensures
            properties@ == (PropertiesView { color: Some(color), ..self@ }),
    {
        let mut properties = self;
        properties.color = Some(color);
        properties
    }

    /// Sets the legend label
    pub fn label(self, label: &'static str) -> (properties: Properties)
        ensures
            properties@ == (PropertiesView { label: Some(label@), ..self@ }),
    {
        let mut properties = self;
        properties.label = Some(label);
        properties
    }

    /// Changes the opacity of the fill color, which must lie between zero
    /// and one
    ///
    /// **Note** By default, the fill color is totally opaque (`opacity = 1.0`)
    pub fn opacity(self, opacity: Number) -> (properties: Properties)
        requires
            unit_fraction(opacity@.bits),
        ensures
            properties@ == (PropertiesView { opacity: Some(opacity@), ..self@ }),
    {
        let mut properties = self;
        properties.opacity = Some(opacity);
        properties
    }

    /// The axes chosen for the curve, if any.
    pub fn chosen_axes(&self) -> (axes: Option<Axes>)
        ensures
            axes == self@.axes,
    {
        self.axes
    }

    /// The style clauses of the filled curve in a plot command.
    pub fn script(&self) -> (script: String)
        ensures
            script@ == filledcurve_text(self@),
    {
        let opacity = match &self.opacity {
            None => String::new(),
            Some(opacity) => {
                let mut clause = "solid ".to_owned();
                clause.append(opacity.text());
                clause.append(" ");
                clause
            },
        };
        let color = color_script(self.color);
        let label = match self.label {
            None => "notitle".to_owned(),
            Some(label) => {
                let mut clause = "title '".to_owned();
                clause.append(label);
                clause.append("'");
                clause
            },
        };
        let mut script = axes_script(self.axes);
        script.append("with filledcurves ");
        script.append("fillstyle ");
        script.append(opacity.as_str());
        script.append("noborder ");
        script.append(color.as_str());
        script.append(label.as_str());
        script
    }
}

impl Plot<FilledCurve> for Figure {
    type Properties = Properties;

    open spec fn accepts(this: FilledCurve, takes: spec_fn(Properties) -> bool) -> bool {
        forall|start: Properties|
            start@ == PropertiesView::initial() ==> takes(start)
    }

    /// The filled curve is registered with three columns: X, scaled by the
    /// factor of the horizontal axis that its properties choose, then the Y
    /// coordinates of the two curves, scaled by the factor of the vertical
    /// one.
    open spec fn plotted(
        before: Figure,
        this: FilledCurve,
        makes: spec_fn(Properties, Properties) -> bool,
        product: spec_fn(u64, u64, u64) -> bool,
        after: Figure,
    ) -> bool {
        exists|start: Properties, properties: Properties|
            start@ == PropertiesView::initial()
                && #[trigger] makes(start, properties) && registered(
                before@,
                after@,
                this.columns(),
                seq![
                    axis_factor(before@.axes, axes_or_default(properties@.axes).x_axis()),
                    axis_factor(before@.axes, axes_or_default(properties@.axes).y_axis()),
                    axis_factor(before@.axes, axes_or_default(properties@.axes).y_axis()),
                ],
                filledcurve_text(properties@),
                product,
            )
    }

    fn plot<F, S>(&mut self, fc: FilledCurve, configure: F, scale: &S) where
        F: FnOnce(Properties) -> Properties,
        S: Fn(u64, u64) -> u64,
     {
        let ghost wanted = fc.columns();
        let FilledCurve { x, y1, y2 } = fc;
        let start = Properties::default();
        let ghost initial = start;
        let properties = configure(start);
        let axes = match properties.chosen_axes() {
            Some(axes) => axes,
            None => Axes::BottomXLeftY,
        };
        let (x_factor, y_factor) = self.scale_factors(axes);
        let mut columns: Vec<Vec<u64>> = Vec::new();
        columns.push(x);
        columns.push(y1);
        columns.push(y2);
        let mut factors: Vec<u64> = Vec::new();
        factors.push(x_factor);
        factors.push(y_factor);
        factors.push(y_factor);
        let script = properties.script();
        proof {
            assert(column_views(columns@) =~= wanted);
            assert(factors@ =~= seq![x_factor, y_factor, y_factor]);
        }
        self.register(&columns, &factors, script, scale);
        assert(made_by(configure)(initial, properties));
    }
}

} // verus!
