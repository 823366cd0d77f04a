//! Colors, line types, point types and output terminals, and the words that
//! gnuplot knows them by.

use vstd::prelude::*;
use vstd::string::*;
use crate::axis::Axes;
use crate::number::{number_view, Number, NumberView};
use crate::text::{hex_pair, push_hex_pair};

verus! {

/// Color
#[derive(Clone, Copy, Debug)]
pub enum Color {
    Black,
    Blue,
    Cyan,
    DarkViolet,
    ForestGreen,
    Gold,
    Gray,
    Green,
    Magenta,
    Red,
    /// Custom RGB color
    Rgb(u8, u8, u8),
    White,
    Yellow,
}

/// Line type
#[derive(Clone, Copy, Debug)]
pub enum LineType {
    Dash,
    Dot,
    DotDash,
    DotDotDash,
    /// Line made of minimally sized dots
    SmallDot,
    Solid,
}

/// Point type
#[derive(Clone, Copy, Debug)]
pub enum PointType {
    Circle,
    FilledCircle,
    FilledSquare,
    FilledTriangle,
    Plus,
    Square,
    Star,
    Triangle,
    X,
}

/// Output terminal
#[derive(Clone, Copy, Debug)]
pub enum Terminal {
    Svg,
}

impl Color {
    /// The color's name, or `#rrggbb` for a custom color.
    pub open spec fn text(self) -> Seq<char> {
        match self {
            Color::Black => "black"@,
            Color::Blue => "blue"@,
            Color::Cyan => "cyan"@,
            Color::DarkViolet => "dark-violet"@,
            Color::ForestGreen => "forest-green"@,
            Color::Gold => "gold"@,
            Color::Gray => "gray"@,
            Color::Green => "green"@,
            Color::Magenta => "magenta"@,
            Color::Red => "red"@,
            Color::Rgb(r, g, b) => "#"@ + hex_pair(r) + hex_pair(g) + hex_pair(b),
            Color::White => "white"@,
            Color::Yellow => "yellow"@,
        }
    }

    /// The text that stands for this color in a script.
    pub fn display(&self) -> (s: String)
        ensures
            s@ == self.text(),
    {
        match *self {
            Color::Black => "black".to_owned(),
            Color::Blue => "blue".to_owned(),
            Color::Cyan => "cyan".to_owned(),
            Color::DarkViolet => "dark-violet".to_owned(),
            Color::ForestGreen => "forest-green".to_owned(),
            Color::Gold => "gold".to_owned(),
            Color::Gray => "gray".to_owned(),
            Color::Green => "green".to_owned(),
            Color::Magenta => "magenta".to_owned(),
            Color::Red => "red".to_owned(),
            Color::Rgb(r, g, b) => {
                let mut s = "#".to_owned();
                push_hex_pair(&mut s, r);
                push_hex_pair(&mut s, g);
                push_hex_pair(&mut s, b);
                s
            },
            Color::White => "white".to_owned(),
            Color::Yellow => "yellow".to_owned(),
        }
    }
}

impl LineType {
    /// The number of the line type.
    pub open spec fn text(self) -> Seq<char> {
        match self {
            LineType::Dash => "2"@,
            LineType::Dot => "3"@,
            LineType::DotDash => "4"@,
            LineType::DotDotDash => "5"@,
            LineType::SmallDot => "0"@,
            LineType::Solid => "1"@,
        }
    }

    /// The text that stands for this line type in a script.
    pub fn display(&self) -> (s: &'static str)
        ensures
            s@ == self.text(),
    {
        match *self {
            LineType::Dash => "2",
            LineType::Dot => "3",
            LineType::DotDash => "4",
            LineType::DotDotDash => "5",
            LineType::SmallDot => "0",
            LineType::Solid => "1",
        }
    }
}

impl Default for LineType {
    fn default() -> (lt: LineType)
        ensures
            lt == LineType::Solid,
    {
        LineType::Solid
    }
}

impl PointType {
    /// The number of the point type.
    pub open spec fn text(self) -> Seq<char> {
        match self {
            PointType::Circle => "6"@,
            PointType::FilledCircle => "7"@,
            PointType::FilledSquare => "5"@,
            PointType::FilledTriangle => "9"@,
            PointType::Plus => "1"@,
            PointType::Square => "4"@,
            PointType::Star => "3"@,
            PointType::Triangle => "8"@,
            PointType::X => "2"@,
        }
    }

    /// The text that stands for this point type in a script.
    pub fn display(&self) -> (s: &'static str)
        ensures
            s@ == self.text(),
    {
        match *self {
            PointType::Circle => "6",
            PointType::FilledCircle => "7",
            PointType::FilledSquare => "5",
            PointType::FilledTriangle => "9",
            PointType::Plus => "1",
            PointType::Square => "4",
            PointType::Star => "3",
            PointType::Triangle => "8",
            PointType::X => "2",
        }
    }
}

impl Terminal {
    /// The terminal's name.
    pub open spec fn text(self) -> Seq<char> {
        match self {
            Terminal::Svg => "svg"@,
        }
    }

    /// The text that stands for this terminal in a script.
    pub fn display(&self) -> (s: &'static str)
        ensures
            s@ == self.text(),
    {
        match *self {
            Terminal::Svg => "svg",
        }
    }
}

/// The clause that names the axes a series is plotted against, empty where
/// none were chosen.
pub open spec fn axes_text(axes: Option<Axes>) -> Seq<char> {
    match axes {
        None => Seq::empty(),
        Some(axes) => "axes "@ + axes.text() + " "@,
    }
}

/// The line-type clause.
pub open spec fn line_type_text(line_type: LineType) -> Seq<char> {
    "lt "@ + line_type.text() + " "@
}

/// The line-width clause, empty where no width is set.
pub open spec fn line_width_text(line_width: Option<NumberView>) -> Seq<char> {
    match line_width {
        None => Seq::empty(),
        Some(width) => "lw "@ + width.text + " "@,
    }
}

/// The color clause, empty where no color is set.
pub open spec fn color_text(color: Option<Color>) -> Seq<char> {
    match color {
        None => Seq::empty(),
        Some(color) => "lc rgb '"@ + color.text() + "' "@,
    }
}

/// The point-type clause, empty where no type is set.
pub open spec fn point_type_text(point_type: Option<PointType>) -> Seq<char> {
    match point_type {
        None => Seq::empty(),
        Some(point_type) => "pt "@ + point_type.text() + " "@,
    }
}

/// The point-size clause, empty where no size is set.
pub open spec fn point_size_text(point_size: Option<NumberView>) -> Seq<char> {
    match point_size {
        None => Seq::empty(),
        Some(size) => "ps "@ + size.text + " "@,
    }
}

/// The clause that ends the style of a series: its label as the title of its
/// key entry, or `notitle` for a series without label.
pub open spec fn legend_text(label: Option<Seq<char>>) -> Seq<char> {
    match label {
        None => "notitle"@,
        Some(label) => "title '"@ + label + "'"@,
    }
}

/// The view of an optional string.
pub open spec fn text_view(text: Option<String>) -> Option<Seq<char>> {
    match text {
        None => None,
        Some(t) => Some(t@),
    }
}

/// The clause that names the axes of a series.
pub fn axes_script(axes: Option<Axes>) -> (s: String)
    ensures
        s@ == axes_text(axes),
{
    match axes {
        None => String::new(),
        Some(axes) => {
            let mut s = "axes ".to_owned();
            s.append(axes.display());
            s.append(" ");
            s
        },
    }
}

/// The line-type clause of a style.
pub fn line_type_script(line_type: LineType) -> (s: String)
    ensures
        s@ == line_type_text(line_type),
{
    let mut s = "lt ".to_owned();
    s.append(line_type.display());
    s.append(" ");
    s
}

/// The line-width clause of a style.
pub fn line_width_script(line_width: &Option<Number>) -> (s: String)
    ensures
        s@ == line_width_text(number_view(*line_width)),
{
    match line_width {
        None => String::new(),
        Some(width) => {
            let mut s = "lw ".to_owned();
            s.append(width.text());
            s.append(" ");
            s
        },
    }
}

/// The color clause of a style.
pub fn color_script(color: Option<Color>) -> (s: String)
    ensures
        s@ == color_text(color),
{
    match color {
        None => String::new(),
        Some(color) => {
            let name = color.display();
            let mut s = "lc rgb '".to_owned();
            s.append(name.as_str());
            s.append("' ");
            s
        },
    }
}

/// The point-type clause of a style.
pub fn point_type_script(point_type: Option<PointType>) -> (s: String)
    ensures
        s@ == point_type_text(point_type),
{
    match point_type {
        None => String::new(),
        Some(point_type) => {
            let mut s = "pt ".to_owned();
            s.append(point_type.display());
            s.append(" ");
            s
        },
    }
}

/// The point-size clause of a style.
pub fn point_size_script(point_size: &Option<Number>) -> (s: String)
    ensures
        s@ == point_size_text(number_view(*point_size)),
{
    match point_size {
        None => String::new(),
        Some(size) => {
            let mut s = "ps ".to_owned();
            s.append(size.text());
            s.append(" ");
            s
        },
    }
}

/// The closing clause of a style.
pub fn legend_script(label: &Option<String>) -> (s: String)
    ensures
        s@ == legend_text(text_view(*label)),
{
    match label {
        None => "notitle".to_owned(),
        Some(label) => {
            let mut s = "title '".to_owned();
            s.append(label.as_str());
            s.append("'");
            s
        },
    }
}

} // verus!
