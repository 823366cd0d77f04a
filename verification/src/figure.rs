//! The figure: global settings, axes, key, grid and series, and the byte
//! stream that they compile to.

use vstd::prelude::*;
use vstd::string::*;
use vstd::utf8::encode_utf8;
use crate::axis::{axis_text, Axes, Axis, AxisProperties, AxisPropertiesView};
use crate::data::{column_views, holds_scaled, product_of, Matrix, MatrixView};
use crate::grid::{grid_text, GridOptions, GridOptionsView};
use crate::key::{key_text, KeyProperties, KeyPropertiesView};
use crate::map::AxisMap;
use crate::number::{non_negative, number_view, Number, NumberView, ONE};
use crate::style::{text_view, Terminal};
use crate::text::{decimal, push_decimal};

verus! {

/// Plot container
#[derive(Clone, Debug)]
pub struct Figure {
    alpha: Option<Number>,
    axes: AxisMap<AxisProperties>,
    box_width: Option<Number>,
    font: Option<String>,
    font_size: Option<Number>,
    key: Option<KeyProperties>,
    output: String,
    plots: Vec<Plot>,
    size: Option<(usize, usize)>,
    terminal: Terminal,
    tics: AxisMap<String>,
    title: Option<String>,
    grid: Option<GridOptions>,
}

/// One registered series: its samples and the style clauses of its plot
/// command.
#[derive(Clone, Debug)]
pub struct Plot {
    data: Matrix,
    script: String,
}

/// What a [`Plot`] holds.
pub struct PlotView {
    /// The samples.
    pub data: MatrixView,
    /// The style clauses.
    pub script: Seq<char>,
}

/// What a [`Figure`] holds.
pub struct FigureView {
    /// The transparency of filled areas, if set.
    pub alpha: Option<NumberView>,
    /// The properties of the axes that were configured.
    pub axes: Map<Axis, AxisPropertiesView>,
    /// The width of boxes, if set.
    pub box_width: Option<NumberView>,
    /// The name of the font, if set.
    pub font: Option<Seq<char>>,
    /// The size of the font, if set.
    pub font_size: Option<NumberView>,
    /// The properties of the key, if it was configured.
    pub key: Option<KeyPropertiesView>,
    /// The path of the output file.
    pub output: Seq<char>,
    /// The series, in the order in which they were registered.
    pub plots: Seq<PlotView>,
    /// The width and the height of the canvas, if set.
    pub size: Option<(usize, usize)>,
    /// The output terminal.
    pub terminal: Terminal,
    /// Tic directives kept beside the axes.
    pub tics: Map<Axis, Seq<char>>,
    /// The title, if set.
    pub title: Option<Seq<char>>,
    /// The options of the grid, if it was configured.
    pub grid: Option<GridOptionsView>,
}

/// The directive that names the output file.
pub open spec fn output_text(output: Seq<char>) -> Seq<char> {
    "set output '"@ + output + "'\n"@
}

/// The directive that sets the width of boxes, empty where none is set.
pub open spec fn box_width_text(width: Option<NumberView>) -> Seq<char> {
    match width {
        None => Seq::empty(),
        Some(width) => "set boxwidth "@ + width.text + "\n"@,
    }
}

/// The directive that sets the title, empty where none is set.
pub open spec fn title_text(title: Option<Seq<char>>) -> Seq<char> {
    match title {
        None => Seq::empty(),
        Some(title) => "set title '"@ + title + "'\n"@,
    }
}

/// The directives of `axis`, empty where it was not configured.
pub open spec fn axis_slot_text(axes: Map<Axis, AxisPropertiesView>, axis: Axis) -> Seq<char> {
    if axes.dom().contains(axis) {
        axis_text(axis, axes[axis])
    } else {
        Seq::empty()
    }
}

/// The directives of the configured axes at the positions below `rank`, in
/// the order of the positions.
pub open spec fn axes_text_below(axes: Map<Axis, AxisPropertiesView>, rank: int) -> Seq<char>
    decreases rank,
{
    if rank <= 0 {
        Seq::empty()
    } else {
        axes_text_below(axes, rank - 1) + axis_slot_text(axes, Axis::of_rank(rank - 1))
    }
}

/// The directives of all configured axes, in the order `BottomX`, `LeftY`,
/// `RightY`, `TopX`.
pub open spec fn axes_text(axes: Map<Axis, AxisPropertiesView>) -> Seq<char> {
    axes_text_below(axes, 4)
}

/// The tic directive kept for `axis`, empty where there is none.
pub open spec fn tics_slot_text(tics: Map<Axis, Seq<char>>, axis: Axis) -> Seq<char> {
    if tics.dom().contains(axis) {
        tics[axis]
    } else {
        Seq::empty()
    }
}

/// The tic directives kept for the axes at the positions below `rank`.
pub open spec fn tics_text_below(tics: Map<Axis, Seq<char>>, rank: int) -> Seq<char>
    decreases rank,
{
    if rank <= 0 {
        Seq::empty()
    } else {
        tics_text_below(tics, rank - 1) + tics_slot_text(tics, Axis::of_rank(rank - 1))
    }
}

/// The tic directives kept beside the axes, in the order of the axes.
pub open spec fn tics_text(tics: Map<Axis, Seq<char>>) -> Seq<char> {
    tics_text_below(tics, 4)
}

/// The directive of the key, empty where it was not configured.
pub open spec fn key_slot_text(key: Option<KeyPropertiesView>) -> Seq<char> {
    match key {
        None => Seq::empty(),
        Some(key) => key_text(key),
    }
}

/// The directive of the grid, empty where it was not configured.
pub open spec fn grid_slot_text(grid: Option<GridOptionsView>) -> Seq<char> {
    match grid {
        None => Seq::empty(),
        Some(grid) => grid_text(grid),
    }
}

/// The directive that makes filled areas transparent, empty where no
/// transparency is set.
pub open spec fn alpha_text(alpha: Option<NumberView>) -> Seq<char> {
    match alpha {
        None => Seq::empty(),
        Some(alpha) => "set style fill transparent solid "@ + alpha.text + "\n"@,
    }
}

/// The size clause of the terminal directive, empty where no size is set.
pub open spec fn size_text(size: Option<(usize, usize)>) -> Seq<char> {
    match size {
        None => Seq::empty(),
        Some((width, height)) => " size "@ + decimal(width as nat) + ", "@ + decimal(
            height as nat,
        ),
    }
}

/// The font clause of the terminal directive: the name of the font, with its
/// size where one is set.  Empty where no font is set, whatever the size.
pub open spec fn font_text(font: Option<Seq<char>>, font_size: Option<NumberView>) -> Seq<char> {
    match font {
        None => Seq::empty(),
        Some(name) => match font_size {
            None => " font '"@ + name + "'"@,
            Some(size) => " font '"@ + name + ","@ + size.text + "'"@,
        },
    }
}

/// Everything that a script holds before its plot command: encoding and
/// output file, box width, title, axes, tic directives, key, grid, fill
/// transparency, and the terminal with its size and font, then the directive
/// that takes the caps off error bars.
pub open spec fn directives(figure: FigureView) -> Seq<char> {
    "set encoding utf8\n"@ + output_text(figure.output) + box_width_text(figure.box_width)
        + title_text(figure.title) + axes_text(figure.axes) + tics_text(figure.tics)
        + key_slot_text(figure.key) + grid_slot_text(figure.grid) + alpha_text(figure.alpha)
        + "set terminal "@ + figure.terminal.text() + " dashed"@ + size_text(figure.size)
        + font_text(figure.font, figure.font_size) + "\nunset bars\n"@
}

/// The numbers of the first `ncols` columns, counted from one, with colons
/// between them.
pub open spec fn column_list(ncols: nat) -> Seq<char>
    decreases ncols,
{
    if ncols == 0 {
        Seq::empty()
    } else if ncols == 1 {
        decimal(1)
    } else {
        column_list((ncols - 1) as nat) + ":"@ + decimal(ncols)
    }
}

/// The clause of one series in the plot command: the description of its
/// binary records, the columns to use, then its style.
pub open spec fn plot_clause(plot: PlotView) -> Seq<char> {
    "'-' binary endian=little record="@ + decimal(plot.data.nrows) + " format='%float64' using "@
        + column_list(plot.data.ncols) + " "@ + plot.script
}

/// The series has samples to send.
pub open spec fn shown(plot: PlotView) -> bool {
    plot.data.bytes.len() > 0
}

/// How many of `plots` have samples to send.
pub open spec fn count_shown(plots: Seq<PlotView>) -> nat
    decreases plots.len(),
{
    if plots.len() == 0 {
        0
    } else if shown(plots.last()) {
        count_shown(plots.drop_last()) + 1
    } else {
        count_shown(plots.drop_last())
    }
}

/// The plot command: `plot` and a space, then the clauses of the series that
/// have samples, in order, with a comma and a space between them.  Series
/// without samples are passed over, and without any series that has samples
/// there is no command at all.
pub open spec fn plot_clauses(plots: Seq<PlotView>) -> Seq<char>
    decreases plots.len(),
{
    if plots.len() == 0 {
        Seq::empty()
    } else if !shown(plots.last()) {
        plot_clauses(plots.drop_last())
    } else if count_shown(plots.drop_last()) == 0 {
        plot_clauses(plots.drop_last()) + "plot "@ + plot_clause(plots.last())
    } else {
        plot_clauses(plots.drop_last()) + ", "@ + plot_clause(plots.last())
    }
}

/// The line break that ends the text of a script with series, empty for a
/// figure without series.
pub open spec fn separator(plots: Seq<PlotView>) -> Seq<char> {
    if plots.len() == 0 {
        Seq::empty()
    } else {
        "\n"@
    }
}

/// The samples of all series, in order, with nothing between them.
pub open spec fn payload(plots: Seq<PlotView>) -> Seq<u8>
    decreases plots.len(),
{
    if plots.len() == 0 {
        Seq::empty()
    } else {
        payload(plots.drop_last()) + plots.last().data.bytes
    }
}

/// The text of the script of a figure.
pub open spec fn script_text(figure: FigureView) -> Seq<char> {
    directives(figure) + plot_clauses(figure.plots) + separator(figure.plots)
}

/// What a figure compiles to: the text of its script in UTF-8, then the
/// samples of its series.
pub open spec fn compiled(figure: FigureView) -> Seq<u8> {
    encode_utf8(script_text(figure)) + payload(figure.plots)
}

/// The views of the properties of the configured axes.
pub open spec fn axes_view(axes: Map<Axis, AxisProperties>) -> Map<Axis, AxisPropertiesView> {
    axes.map_values(|properties: AxisProperties| properties@)
}

/// The views of the tic directives.
pub open spec fn tics_view(tics: Map<Axis, String>) -> Map<Axis, Seq<char>> {
    tics.map_values(|directive: String| directive@)
}

/// The views of the series.
pub open spec fn plots_view(plots: Seq<Plot>) -> Seq<PlotView> {
    plots.map_values(|plot: Plot| plot@)
}

/// The view of an optional key.
pub open spec fn key_view(key: Option<KeyProperties>) -> Option<KeyPropertiesView> {
    match key {
        None => None,
        Some(key) => Some(key@),
    }
}

/// The view of optional grid options.
pub open spec fn grid_view(grid: Option<GridOptions>) -> Option<GridOptionsView> {
    match grid {
        None => None,
        Some(grid) => Some(grid@),
    }
}

/// The scale factor of `axis`: the one in its properties, and one where the
/// axis was not configured.
pub open spec fn axis_factor(axes: Map<Axis, AxisPropertiesView>, axis: Axis) -> u64 {
    if axes.dom().contains(axis) {
        axes[axis].scale_factor
    } else {
        ONE
    }
}

impl View for Plot {
    type V = PlotView;

    closed spec fn view(&self) -> PlotView {
        PlotView { data: self.data@, script: self.script@ }
    }
}

impl View for Figure {
    type V = FigureView;

    closed spec fn view(&self) -> FigureView {
        FigureView {
            alpha: number_view(self.alpha),
            axes: axes_view(self.axes@),
            box_width: number_view(self.box_width),
            font: text_view(self.font),
            font_size: number_view(self.font_size),
            key: key_view(self.key),
            output: self.output@,
            plots: plots_view(self.plots@),
            size: self.size,
            terminal: self.terminal,
            tics: tics_view(self.tics@),
            title: text_view(self.title),
            grid: grid_view(self.grid),
        }
    }
}

impl FigureView {
    /// What a new figure holds: the output file `output.plot`, the terminal
    /// `Svg`, and nothing else.
    pub open spec fn initial() -> FigureView {
        FigureView {
            alpha: None,
            axes: Map::empty(),
            box_width: None,
            font: None,
            font_size: None,
            key: None,
            output: "output.plot"@,
            plots: Seq::empty(),
            size: None,
            terminal: Terminal::Svg,
            tics: Map::empty(),
            title: None,
            grid: None,
        }
    }
}

impl Plot {
    /// A series from its samples and its style clauses.
    pub fn new(data: Matrix, script: String) -> (plot: Plot)
        ensures
            plot@ == (PlotView { data: data@, script: script@ }),
    {
        Plot { data, script }
    }

    /// The samples of the series.
    pub fn data(&self) -> (data: &Matrix)
        ensures
            data@ == self@.data,
    {
        &self.data
    }

    /// The style clauses of the series.
    pub fn script(&self) -> (script: &str)
        ensures
            script@ == self@.script,
    {
        self.script.as_str()
    }
}

impl Default for Figure {
    fn default() -> (figure: Figure)
        ensures
            figure@ == FigureView::initial(),
    {
        Figure::new()
    }
}

impl Figure {
    /// Creates an empty figure
    pub fn new() -> (figure: Figure)
        ensures
            figure@ == FigureView::initial(),
    {
        let figure = Figure {
            alpha: None,
            axes: AxisMap::new(),
            box_width: None,
            font: None,
            font_size: None,
            key: None,
            output: "output.plot".to_owned(),
            plots: Vec::new(),
            size: None,
            terminal: Terminal::Svg,
            tics: AxisMap::new(),
            title: None,
            grid: None,
        };
        assert(figure@.axes =~= Map::empty());
        assert(figure@.tics =~= Map::empty());
        assert(figure@.plots =~= Seq::empty());
        figure
    }

    /// Changes the box width of all the box related plots (bars, candlesticks, etc)
    ///
    /// The width must not be below zero.
    ///
    /// **Note** The default value is 0
    pub fn box_width(&mut self, width: Number)
        requires
            non_negative(width@.bits),
        ensures
            final(self)@ == (FigureView { box_width: Some(width@), ..old(self)@ }),
    {
        self.box_width = Some(width);
    }

    /// Changes the font
    pub fn font(&mut self, font: &str)
        ensures
            final(self)@ == (FigureView { font: Some(font@), ..old(self)@ }),
    {
        self.font = Some(font.to_owned());
    }

    /// Changes the size of the font, which must not be below zero
    pub fn font_size(&mut self, size: Number)
        requires
            non_negative(size@.bits),
        ensures
            final(self)@ == (FigureView { font_size: Some(size@), ..old(self)@ }),
    {
        self.font_size = Some(size);
    }

    /// Changes the output file
    ///
    /// **Note** The default output file is `output.plot`
    pub fn output(&mut self, output: &str)
        ensures
            final(self)@ == (FigureView { output: output@, ..old(self)@ }),
    {
        self.output = output.to_owned();
    }

    /// Changes the figure size
    pub fn figure_size(&mut self, width: usize, height: usize)
        ensures
            final(self)@ == (FigureView { size: Some((width, height)), ..old(self)@ }),
    {
        self.size = Some((width, height));
    }

    /// Changes the output terminal
    ///
    /// **Note** By default, the terminal is set to `Svg`
    pub fn terminal(&mut self, terminal: Terminal)
        ensures
            final(self)@ == (FigureView { terminal, ..old(self)@ }),
    {
        self.terminal = terminal;
    }

    /// Sets the title
    pub fn title(&mut self, title: &str)
        ensures
            final(self)@ == (FigureView { title: Some(title@), ..old(self)@ }),
    {
        self.title = Some(title.to_owned());
    }
}


/// Where no axis between the positions `from` and `to` is configured, the
/// directives below `to` are those below `from`.
proof fn lemma_axes_text_skip(axes: Map<Axis, AxisPropertiesView>, from: int, to: int)
    requires
        0 <= from <= to <= 4,
        forall|rank: int| from <= rank < to ==> !axes.dom().contains(#[trigger] Axis::of_rank(rank)),
    ensures
        axes_text_below(axes, to) == axes_text_below(axes, from),
    decreases to - from,
{
    if from < to {
        lemma_axes_text_skip(axes, from, to - 1);
    }
}

/// Where no tic directive is kept between the positions `from` and `to`, the
/// directives below `to` are those below `from`.
proof fn lemma_tics_text_skip(tics: Map<Axis, Seq<char>>, from: int, to: int)
    requires
        0 <= from <= to <= 4,
        forall|rank: int| from <= rank < to ==> !tics.dom().contains(#[trigger] Axis::of_rank(rank)),
    ensures
        tics_text_below(tics, to) == tics_text_below(tics, from),
    decreases to - from,
{
    if from < to {
        lemma_tics_text_skip(tics, from, to - 1);
    }
}

/// The directives of the configured axes.
fn axes_script(axes: &AxisMap<AxisProperties>) -> (script: String)
    ensures
        script@ == axes_text(axes_view(axes@)),
{
    let ghost views = axes_view(axes@);
    let mut script = String::new();
    let mut items = axes.iter();
    loop
        invariant
            views == axes_view(axes@),
            items.store() == axes@,
            0 <= items.position() <= 4,
            script@ == axes_text_below(views, items.position()),
        ensures
            script@ == axes_text_below(views, 4),
        decreases 4 - items.position(),
    {
        let ghost from = items.position();
        match items.next() {
            None => {
                proof {
                    lemma_axes_text_skip(views, from, 4);
                }
                break ;
            },
            Some((axis, properties)) => {
                let directive = properties.script(axis);
                script.append(directive.as_str());
                proof {
                    lemma_axes_text_skip(views, from, axis.rank());
                }
            },
        }
    }
    script
}

/// The tic directives kept beside the axes.
fn tics_script(tics: &AxisMap<String>) -> (script: String)
    ensures
        script@ == tics_text(tics_view(tics@)),
{
    let ghost views = tics_view(tics@);
    let mut script = String::new();
    let mut items = tics.iter();
    loop
        invariant
            views == tics_view(tics@),
            items.store() == tics@,
            0 <= items.position() <= 4,
            script@ == tics_text_below(views, items.position()),
        ensures
            script@ == tics_text_below(views, 4),
        decreases 4 - items.position(),
    {
        let ghost from = items.position();
        match items.next() {
            None => {
                proof {
                    lemma_tics_text_skip(views, from, 4);
                }
                break ;
            },
            Some((axis, directive)) => {
                script.append(directive.as_str());
                proof {
                    lemma_tics_text_skip(views, from, axis.rank());
                }
            },
        }
    }
    script
}

fn output_script(output: &String) -> (s: String)
    ensures
        s@ == output_text(output@),
{
    let mut s = "set output '".to_owned();
    s.append(output.as_str());
    s.append("'\n");
    s
}

fn box_width_script(width: &Option<Number>) -> (s: String)
    ensures
        s@ == box_width_text(number_view(*width)),
{
    match width {
        None => String::new(),
        Some(width) => {
            let mut s = "set boxwidth ".to_owned();
            s.append(width.text());
            s.append("\n");
            s
        },
    }
}

fn title_script(title: &Option<String>) -> (s: String)
    ensures
        s@ == title_text(text_view(*title)),
{
    match title {
        None => String::new(),
        Some(title) => {
            let mut s = "set title '".to_owned();
            s.append(title.as_str());
            s.append("'\n");
            s
        },
    }
}

fn key_script(key: &Option<KeyProperties>) -> (s: String)
    ensures
        s@ == key_slot_text(key_view(*key)),
{
    match key {
        None => String::new(),
        Some(key) => key.script(),
    }
}

fn grid_script(grid: &Option<GridOptions>) -> (s: String)
    ensures
        s@ == grid_slot_text(grid_view(*grid)),
{
    match grid {
        None => String::new(),
        Some(grid) => grid.script(),
    }
}

fn alpha_script(alpha: &Option<Number>) -> (s: String)
    ensures
        s@ == alpha_text(number_view(*alpha)),
{
    match alpha {
        None => String::new(),
        Some(alpha) => {
            let mut s = "set style fill transparent solid ".to_owned();
            s.append(alpha.text());
            s.append("\n");
            s
        },
    }
}

fn size_script(size: Option<(usize, usize)>) -> (s: String)
    ensures
        s@ == size_text(size),
{
    match size {
        None => String::new(),
        Some((width, height)) => {
            let mut s = " size ".to_owned();
            push_decimal(&mut s, width);
            s.append(", ");
            push_decimal(&mut s, height);
            s
        },
    }
}

fn font_script(font: &Option<String>, font_size: &Option<Number>) -> (s: String)
    ensures
        s@ == font_text(text_view(*font), number_view(*font_size)),
{
    match font {
        None => String::new(),
        Some(name) => {
            let mut s = " font '".to_owned();
            s.append(name.as_str());
            match font_size {
                None => {},
                Some(size) => {
                    s.append(",");
                    s.append(size.text());
                },
            }
            s.append("'");
            s
        },
    }
}

/// The numbers of the first `ncols` columns with colons between them.
fn column_list_script(ncols: usize) -> (s: String)
    ensures
        s@ == column_list(ncols as nat),
{
    let mut s = String::new();
    let mut col: usize = 0;
    while col < ncols
        invariant
            col <= ncols,
            s@ == column_list(col as nat),
        decreases ncols - col,
    {
        if col == 0 {
            push_decimal(&mut s, 1);
        } else {
            s.append(":");
            push_decimal(&mut s, col + 1);
        }
        col = col + 1;
    }
    s
}

/// The clause of one series in the plot command.
fn plot_clause_script(plot: &Plot) -> (s: String)
    ensures
        s@ == plot_clause(plot@),
{
    let columns = column_list_script(plot.data().ncols());
    let mut s = "'-' binary endian=little record=".to_owned();
    push_decimal(&mut s, plot.data().nrows());
    s.append(" format='%float64' using ");
    s.append(columns.as_str());
    s.append(" ");
    s.append(plot.script());
    s
}

/// The plot command of a list of series.
fn plot_clauses_script(plots: &Vec<Plot>) -> (s: String)
    ensures
        s@ == plot_clauses(plots_view(plots@)),
{
    let ghost views = plots_view(plots@);
    let mut s = String::new();
    let mut is_first_plot = true;
    let mut i: usize = 0;
    while i < plots.len()
        invariant
            i <= plots@.len(),
            views == plots_view(plots@),
            s@ == plot_clauses(views.take(i as int)),
            is_first_plot == (count_shown(views.take(i as int)) == 0),
        decreases plots@.len() - i,
    {
        let plot = &plots[i];
        assert(views.take(i as int + 1).drop_last() =~= views.take(i as int));
        if !plot.data().bytes().is_empty() {
            if is_first_plot {
                s.append("plot ");
                is_first_plot = false;
            } else {
                s.append(", ");
            }
            let clause = plot_clause_script(plot);
            s.append(clause.as_str());
        }
        i = i + 1;
    }
    assert(views.take(i as int) =~= views);
    s
}

/// The samples of a list of series.
fn payload_bytes(plots: &Vec<Plot>) -> (bytes: Vec<u8>)
    ensures
        bytes@ == payload(plots_view(plots@)),
{
    let ghost views = plots_view(plots@);
    let mut bytes: Vec<u8> = Vec::new();
    let mut i: usize = 0;
    while i < plots.len()
        invariant
            i <= plots@.len(),
            views == plots_view(plots@),
            bytes@ == payload(views.take(i as int)),
        decreases plots@.len() - i,
    {
        let plot = &plots[i];
        let ghost before = bytes@;
        bytes.extend_from_slice(plot.data().bytes());
        assert(bytes@ =~= before + plot@.data.bytes);
        assert(views.take(i as int + 1).drop_last() =~= views.take(i as int));
        i = i + 1;
    }
    assert(views.take(i as int) =~= views);
    bytes
}

impl Figure {
    /// Compiles the figure: the text of its script in UTF-8, then the
    /// samples of its series.
    ///
    /// The result depends on what the figure holds and on nothing else: a
    /// figure that is compiled twice gives the same bytes twice.
    pub fn script(&self) -> (buffer: Vec<u8>)
        ensures
            buffer@ == compiled(self@),
    {
        let output = output_script(&self.output);
        let box_width = box_width_script(&self.box_width);
        let title = title_script(&self.title);
        let axes = axes_script(&self.axes);
        let tics = tics_script(&self.tics);
        let key = key_script(&self.key);
        let grid = grid_script(&self.grid);
        let alpha = alpha_script(&self.alpha);
        let size = size_script(self.size);
        let font = font_script(&self.font, &self.font_size);
        let plot_command = plot_clauses_script(&self.plots);

        let mut s = "set encoding utf8\n".to_owned();
        s.append(output.as_str());
        s.append(box_width.as_str());
        s.append(title.as_str());
        s.append(axes.as_str());
        s.append(tics.as_str());
        s.append(key.as_str());
        s.append(grid.as_str());
        s.append(alpha.as_str());
        s.append("set terminal ");
        s.append(self.terminal.display());
        s.append(" dashed");
        s.append(size.as_str());
        s.append(font.as_str());
        s.append("\nunset bars\n");
        s.append(plot_command.as_str());
        if self.plots.len() > 0 {
            s.append("\n");
        }

        let mut buffer = s.as_str().as_bytes_vec();
        let mut samples = payload_bytes(&self.plots);
        buffer.append(&mut samples);
        buffer
    }

    /// Dumps the script required to produce the figure into `sink`
    pub fn dump(&self, sink: &mut Vec<u8>)
        ensures
            final(sink)@ == old(sink)@ + compiled(self@),
    {
        let mut buffer = self.script();
        sink.append(&mut buffer);
    }
}


/// What the properties of `axis` are before they are configured further:
/// those that the figure holds for the axis, or those of an axis that was
/// never configured.
pub open spec fn axis_start(axes: Map<Axis, AxisPropertiesView>, axis: Axis) -> AxisPropertiesView {
    if axes.dom().contains(axis) {
        axes[axis]
    } else {
        AxisPropertiesView::initial(axis)
    }
}

/// What the properties of the key are before they are configured further.
pub open spec fn key_start(key: Option<KeyPropertiesView>) -> KeyPropertiesView {
    match key {
        Some(key) => key,
        None => KeyPropertiesView::initial(),
    }
}

/// What the options of the grid are before they are configured further.
pub open spec fn grid_start(grid: Option<GridOptionsView>) -> GridOptionsView {
    match grid {
        Some(grid) => grid,
        None => GridOptionsView::initial(),
    }
}

/// The axes that a series is plotted against: those chosen for it, and
/// `BottomXLeftY` where none were chosen.
pub open spec fn axes_or_default(axes: Option<Axes>) -> Axes {
    match axes {
        Some(axes) => axes,
        None => Axes::BottomXLeftY,
    }
}

/// `after` is `before` with one more series, which comes last: its style
/// clauses are `script`, and its samples are those of `columns`, the samples
/// of each column scaled, by `product`, by the factor at its position in
/// `factors`.
pub open spec fn registered(
    before: FigureView,
    after: FigureView,
    columns: Seq<Seq<u64>>,
    factors: Seq<u64>,
    script: Seq<char>,
    product: spec_fn(u64, u64, u64) -> bool,
) -> bool {
    &&& after == (FigureView { plots: after.plots, ..before })
    &&& after.plots.len() == before.plots.len() + 1
    &&& after.plots.drop_last() == before.plots
    &&& after.plots.last().script == script
    &&& holds_scaled(after.plots.last().data, columns, factors, product)
}

/// The scale factors of the two axes of `axes`, the horizontal one first:
/// for each the factor in its properties, and one where the axis was not
/// configured.
pub fn scale_factor(map: &AxisMap<AxisProperties>, axes: Axes) -> (factors: (u64, u64))
    ensures
        factors.0 == axis_factor(axes_view(map@), axes.x_axis()),
        factors.1 == axis_factor(axes_view(map@), axes.y_axis()),
{
    let (x_axis, y_axis) = axes.split();
    let x_factor = match map.get(x_axis) {
        Some(properties) => properties.factor(),
        None => ONE,
    };
    let y_factor = match map.get(y_axis) {
        Some(properties) => properties.factor(),
        None => ONE,
    };
    (x_factor, y_factor)
}

impl Figure {
    /// Configures an axis.
    ///
    /// `configure` is applied to the properties that the figure holds for
    /// `axis`, or to those of an axis that was never configured, and the
    /// figure keeps what it returns.
    pub fn configure_axis<F: FnOnce(AxisProperties) -> AxisProperties>(
        &mut self,
        axis: Axis,
        configure: F,
    )
        requires
            forall|properties: AxisProperties|
                properties@ == axis_start(old(self)@.axes, axis) ==> configure.requires(
                    (properties,),
                ),
        ensures
            exists|before: AxisProperties, after: AxisProperties|
                before@ == axis_start(old(self)@.axes, axis) && #[trigger] configure.ensures(
                    (before,),
                    after,
                ) && final(self)@ == (FigureView {
                    axes: old(self)@.axes.insert(axis, after@),
                    ..old(self)@
                }),
    {
        let ghost held = self.axes@;
        let before = match self.axes.take(axis) {
            Some(properties) => properties,
            None => AxisProperties::new(axis),
        };
        let after = configure(before);
        let ghost end = after@;
        self.axes.insert(axis, after);
        assert(axes_view(self.axes@) =~= axes_view(held).insert(axis, end));
    }

    /// Configures the key (legend).
    ///
    /// `configure` is applied to the properties that the figure holds for
    /// the key, or to those of a key that was never configured, and the
    /// figure keeps what it returns.
    pub fn configure_key<F: FnOnce(KeyProperties) -> KeyProperties>(&mut self, configure: F)
        requires
            forall|key: KeyProperties|
                key@ == key_start(old(self)@.key) ==> configure.requires((key,)),
        ensures
            exists|before: KeyProperties, after: KeyProperties|
                before@ == key_start(old(self)@.key) && #[trigger] configure.ensures(
                    (before,),
                    after,
                ) && final(self)@ == (FigureView { key: Some(after@), ..old(self)@ }),
    {
        let before = match self.key.take() {
            Some(key) => key,
            None => KeyProperties::default(),
        };
        self.key = Some(configure(before));
    }

    /// Configures the major and the minor grid
    ///
    /// `configure` is applied to the options that the figure holds for the
    /// grid, or to those of a grid that was never configured, and the figure
    /// keeps what it returns.
    pub fn configure_grid<F: FnOnce(GridOptions) -> GridOptions>(&mut self, configure: F)
        requires
            forall|grid: GridOptions|
                grid@ == grid_start(old(self)@.grid) ==> configure.requires((grid,)),
        ensures
            exists|before: GridOptions, after: GridOptions|
                before@ == grid_start(old(self)@.grid) && #[trigger] configure.ensures(
                    (before,),
                    after,
                ) && final(self)@ == (FigureView { grid: Some(after@), ..old(self)@ }),
    {
        let before = match self.grid.take() {
            Some(grid) => grid,
            None => GridOptions::default(),
        };
        self.grid = Some(configure(before));
    }

    /// The scale factors of the two axes of `axes`, the horizontal one
    /// first.
    pub fn scale_factors(&self, axes: Axes) -> (factors: (u64, u64))
        ensures
            factors.0 == axis_factor(self@.axes, axes.x_axis()),
            factors.1 == axis_factor(self@.axes, axes.y_axis()),
    {
        scale_factor(&self.axes, axes)
    }

    /// Appends a series with the style clauses `script` and the samples of
    /// `columns`, each column scaled by the factor at its position in
    /// `factors`.
    pub(crate) fn register<S: Fn(u64, u64) -> u64>(
        &mut self,
        columns: &Vec<Vec<u64>>,
        factors: &Vec<u64>,
        script: String,
        scale: &S,
    )
        requires
            columns@.len() == factors@.len(),
            forall|sample: u64, factor: u64| scale.requires((sample, factor)),
        ensures
            registered(
                old(self)@,
                final(self)@,
                column_views(columns@),
                factors@,
                script@,
                product_of(*scale),
            ),
    {
        let data = Matrix::new(columns, factors, scale);
        let ghost held = self.plots@;
        self.plots.push(Plot::new(data, script));
        assert(plots_view(self.plots@).drop_last() =~= plots_view(held));
    }
}


/// Figures that hold the same compile to the same bytes: what a figure
/// compiles to depends on nothing but what it holds, so compiling it again
/// without changing it gives the same bytes again.
pub proof fn lemma_compiled_alike(one: Figure, other: Figure)
    requires
        one@ == other@,
    ensures
        compiled(one@) == compiled(other@),
{
}

/// A figure without series compiles to its directives alone: the script has
/// no plot command and no line break after the directives, and no samples
/// follow it.
pub proof fn lemma_compiled_without_series(figure: FigureView)
    requires
        figure.plots.len() == 0,
    ensures
        plot_clauses(figure.plots) == Seq::<char>::empty(),
        payload(figure.plots) == Seq::<u8>::empty(),
        script_text(figure) == directives(figure),
        compiled(figure) == encode_utf8(directives(figure)),
{
}

/// A hidden axis leaves one directive in the compiled script, which unsets
/// its tics: a figure compiles to the same bytes whatever else the
/// properties of a hidden axis hold.
pub proof fn lemma_compiled_with_hidden_axis(
    figure: FigureView,
    axis: Axis,
    other: AxisPropertiesView,
)
    requires
        figure.axes.dom().contains(axis),
        figure.axes[axis].hidden,
        other.hidden,
    ensures
        axis_slot_text(figure.axes, axis) == "unset "@ + axis.text() + "tics\n"@,
        compiled(FigureView { axes: figure.axes.insert(axis, other), ..figure }) == compiled(
            figure,
        ),
{
    let changed = figure.axes.insert(axis, other);
    assert forall|rank: int| 0 <= rank <= 4 implies #[trigger] axes_text_below(changed, rank)
        == axes_text_below(figure.axes, rank) by {
        lemma_axes_text_alike(figure.axes, changed, rank);
    }
}

/// Where each axis gets the same directives from two sets of properties, so
/// do the axes at the positions below `rank` together.
proof fn lemma_axes_text_alike(
    one: Map<Axis, AxisPropertiesView>,
    other: Map<Axis, AxisPropertiesView>,
    rank: int,
)
    requires
        forall|axis: Axis| #[trigger] axis_slot_text(one, axis) == axis_slot_text(other, axis),
    ensures
        axes_text_below(one, rank) == axes_text_below(other, rank),
    decreases rank,
{
    if rank > 0 {
        lemma_axes_text_alike(one, other, rank - 1);
    }
}

} // verus!
