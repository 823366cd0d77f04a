//! Grid along major and minor ticks

use vstd::prelude::*;
use vstd::string::*;
use crate::number::{number_view, positive, Number, NumberView};
use crate::style::{color_script, color_text, line_width_script, line_width_text, Color, LineType};

verus! {

/// The sorting layer of the gridlines
#[derive(Clone, Copy, Debug)]
pub enum GridLayer {
    /// Default sorting layer (Back)
    Default,
    /// The gridlines are rendered in front of the plot
    Front,
    /// The gridlines are rendered behind the plot
    Back,
}

/// The appearance of the major or the minor gridlines
#[derive(Clone, Debug)]
pub struct GridStyle {
    line_width: Option<Number>,
    color: Option<Color>,
    line_type: Option<LineType>,
}

/// What a [`GridStyle`] holds.
pub struct GridStyleView {
    /// The width of the lines, if set.
    pub line_width: Option<NumberView>,
    /// The color of the lines, if set.
    pub color: Option<Color>,
    /// The type of the lines, if set.
    pub line_type: Option<LineType>,
}

/// The common options of the grid of the plot
#[derive(Clone, Debug)]
pub struct GridOptions {
    layer: Option<GridLayer>,
    major_style: GridStyle,
    minor_style: GridStyle,
}

/// What a [`GridOptions`] holds.
pub struct GridOptionsView {
    /// The sorting layer, if set.
    pub layer: Option<GridLayer>,
    /// The appearance of the major gridlines.
    pub major_style: GridStyleView,
    /// The appearance of the minor gridlines.
    pub minor_style: GridStyleView,
}

impl GridLayer {
    /// The word for this layer.
    pub open spec fn text(self) -> Seq<char> {
        match self {
            GridLayer::Default => "layerdefault"@,
            GridLayer::Front => "front"@,
            GridLayer::Back => "back"@,
        }
    }

    /// The word for this layer in a script.
    pub fn display(&self) -> (s: &'static str)
        ensures
            s@ == self.text(),
    {
        match self {
            GridLayer::Default => "layerdefault",
            GridLayer::Front => "front",
            GridLayer::Back => "back",
        }
    }
}

/// The line-type clause of a grid style, empty where no type is set.
pub open spec fn grid_line_type_text(line_type: Option<LineType>) -> Seq<char> {
    match line_type {
        None => Seq::empty(),
        Some(line_type) => "lt "@ + line_type.text() + " "@,
    }
}

/// The clauses of a grid style: line width, color, line type, each only if
/// set.
pub open spec fn grid_style_text(style: GridStyleView) -> Seq<char> {
    line_width_text(style.line_width) + color_text(style.color) + grid_line_type_text(
        style.line_type,
    )
}

/// The layer clause, empty where no layer is set.
pub open spec fn layer_text(layer: Option<GridLayer>) -> Seq<char> {
    match layer {
        None => Seq::empty(),
        Some(layer) => layer.text() + " "@,
    }
}

/// The directive for the grid: `set grid`, the layer, then the major and the
/// minor style with a comma between them, on one line.
pub open spec fn grid_text(grid: GridOptionsView) -> Seq<char> {
    "set grid "@ + layer_text(grid.layer) + grid_style_text(grid.major_style) + ","@
        + grid_style_text(grid.minor_style) + "\n"@
}

impl View for GridStyle {
    type V = GridStyleView;

    closed spec fn view(&self) -> GridStyleView {
        GridStyleView {
            line_width: number_view(self.line_width),
            color: self.color,
            line_type: self.line_type,
        }
    }
}

impl View for GridOptions {
    type V = GridOptionsView;

    closed spec fn view(&self) -> GridOptionsView {
        GridOptionsView {
            layer: self.layer,
            major_style: self.major_style@,
            minor_style: self.minor_style@,
        }
    }
}

impl Default for GridStyle {
    /// A style with nothing set.
    fn default() -> (style: GridStyle)
        ensures
            style@ == (GridStyleView { line_width: None, color: None, line_type: None }),
    {
        GridStyle { line_width: None, color: None, line_type: None }
    }
}

impl GridOptionsView {
    /// What the options of a grid hold before they are configured: nothing.
    pub open spec fn initial() -> GridOptionsView {
        GridOptionsView {
            layer: None,
            major_style: GridStyleView { line_width: None, color: None, line_type: None },
            minor_style: GridStyleView { line_width: None, color: None, line_type: None },
        }
    }
}

impl Default for GridOptions {
    /// Options with nothing set.
    fn default() -> (grid: GridOptions)
        ensures
            grid@ == GridOptionsView::initial(),
    {
        GridOptions {
            layer: None,
            major_style: GridStyle { line_width: None, color: None, line_type: None },
            minor_style: GridStyle { line_width: None, color: None, line_type: None },
        }
    }
}

impl GridStyle {
    /// Sets the line width of the grid, which must be greater than zero
    pub fn line_width(self, width: Number) -> (style: GridStyle)
        requires
            positive(width@.bits),
        ensures
            style@ == (GridStyleView { line_width: Some(width@), ..self@ }),
    {
        let mut style = self;
        style.line_width = Some(width);
        style
    }

    /// Sets the color of the grid
    pub fn color(self, color: Color) -> (style: GridStyle)
        ensures
            style@ == (GridStyleView { color: Some(color), ..self@ }),
    {
        let mut style = self;
        style.color = Some(color);
        style
    }

    /// Sets the line type of the grid
    pub fn line_type(self, line_type: LineType) -> (style: GridStyle)
        ensures
            style@ == (GridStyleView { line_type: Some(line_type), ..self@ }),
    {
        let mut style = self;
        style.line_type = Some(line_type);
        style
    }

    /// The clauses that describe this style.
    pub fn script(&self) -> (script: String)
        ensures
            script@ == grid_style_text(self@),
    {
        let mut script = line_width_script(&self.line_width);
        let color = color_script(self.color);
        script.append(color.as_str());
        match self.line_type {
            None => {
                assert(script@ =~= grid_style_text(self@));
            },
            Some(line_type) => {
                let mut clause = "lt ".to_owned();
                clause.append(line_type.display());
                clause.append(" ");
                script.append(clause.as_str());
            },
        }
        script
    }
}

impl GridOptions {
    /// Sets the sorting layer of both the major and minor gridlines
    pub fn layer(self, layer: GridLayer) -> (grid: GridOptions)
        ensures
            grid@ == (GridOptionsView { layer: Some(layer), ..self@ }),
    {
        let mut grid = self;
        grid.layer = Some(layer);
        grid
    }

    /// Configure the major gridlines' style
    pub fn configure_major<F: FnOnce(GridStyle) -> GridStyle>(self, configure: F) -> (grid:
        GridOptions)
        requires
            forall|style: GridStyle| style@ == self@.major_style ==> configure.requires((style,)),
        ensures
            exists|before: GridStyle, after: GridStyle|
                before@ == self@.major_style && after@ == grid@.major_style
                    && #[trigger] configure.ensures((before,), after),
            grid@ == (GridOptionsView { major_style: grid@.major_style, ..self@ }),
    {
        let GridOptions { layer, major_style, minor_style } = self;
        let ghost before = major_style;
        let major_style = configure(major_style);
        assert(configure.ensures((before,), major_style));
        GridOptions { layer, major_style, minor_style }
    }

    /// Configure the minor gridlines' style
    pub fn configure_minor<F: FnOnce(GridStyle) -> GridStyle>(self, configure: F) -> (grid:
        GridOptions)
        requires
            forall|style: GridStyle| style@ == self@.minor_style ==> configure.requires((style,)),
        ensures
            exists|before: GridStyle, after: GridStyle|
                before@ == self@.minor_style && after@ == grid@.minor_style
                    && #[trigger] configure.ensures((before,), after),
            grid@ == (GridOptionsView { minor_style: grid@.minor_style, ..self@ }),
    {
        let GridOptions { layer, major_style, minor_style } = self;
        let ghost before = minor_style;
        let minor_style = configure(minor_style);
        assert(configure.ensures((before,), minor_style));
        GridOptions { layer, major_style, minor_style }
    }

    /// The directive that sets up the grid.
    pub fn script(&self) -> (script: String)
        ensures
            script@ == grid_text(self@),
    {
        let layer = match self.layer {
            None => String::new(),
            Some(layer) => {
                let mut clause = layer.display().to_owned();
                clause.append(" ");
                clause
            },
        };
        let major = self.major_style.script();
        let minor = self.minor_style.script();
        let mut script = "set grid ".to_owned();
        script.append(layer.as_str());
        script.append(major.as_str());
        script.append(",");
        script.append(minor.as_str());
        script.append("\n");
        script
    }
}

} // verus!
