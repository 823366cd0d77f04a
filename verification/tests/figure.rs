use ploteria::axis::{Axes, Axis, Range, Scale};
use ploteria::candlestick::Candlesticks;
use ploteria::curve::Curve;
use ploteria::errorbar::ErrorBar;
use ploteria::figure::scale_factor;
use ploteria::filledcurve::FilledCurve;
use ploteria::grid::GridLayer;
use ploteria::key::{Horizontal, Position, Vertical};
use ploteria::map::AxisMap;
use ploteria::prelude::{Lines, XErrorBars};
use ploteria::traits::Plot;
use ploteria::{Color, Figure, Number, Terminal};

fn num(x: f64) -> Number {
    Number::new(x.to_bits(), &format!("{}", x))
}

fn bits(values: &[f64]) -> Vec<u64> {
    values.iter().map(|v| v.to_bits()).collect()
}

fn product(a: u64, b: u64) -> u64 {
    (f64::from_bits(a) * f64::from_bits(b)).to_bits()
}

fn le_bytes(values: &[f64]) -> Vec<u8> {
    let mut bytes = Vec::new();
    for v in values {
        bytes.extend_from_slice(&v.to_le_bytes());
    }
    bytes
}

fn expect(text: &str, samples: &[f64]) -> Vec<u8> {
    let mut bytes = text.as_bytes().to_vec();
    bytes.extend_from_slice(&le_bytes(samples));
    bytes
}

const HEAD: &str = "set encoding utf8\nset output 'output.plot'\n";
const TAIL: &str = "set terminal svg dashed\nunset bars\n";

#[test]
fn an_empty_figure_compiles_to_directives_alone() {
    let figure = Figure::new();
    let script = figure.script();
    assert_eq!(
        String::from_utf8(script.clone()).unwrap(),
        "set encoding utf8\nset output 'output.plot'\nset terminal svg dashed\nunset bars\n"
    );
    let text = String::from_utf8(script).unwrap();
    assert!(!text.contains("plot "));
    assert!(!text.contains("binary"));
    assert!(text.ends_with("unset bars\n"));
    assert_eq!(Figure::default().script(), figure.script());
}

#[test]
fn compiling_twice_gives_the_same_bytes() {
    let mut figure = Figure::new();
    figure.title("Twice");
    figure.configure_axis(Axis::LeftY, |a| a.label("y").scale(Scale::Logarithmic));
    figure.configure_key(|k| k.title("k"));
    figure.plot(
        Curve::Points { x: bits(&[1.0, 2.0]), y: bits(&[0.5, 0.25]) },
        |p| p.label("points"),
        &product,
    );
    let first = figure.script();
    let second = figure.script();
    assert_eq!(first, second);
    let copy = figure.clone();
    assert_eq!(copy.script(), first);
}

#[test]
fn one_axis_and_one_series_of_two_columns() {
    let mut figure = Figure::new();
    figure.configure_axis(Axis::BottomX, |a| a.range(Range::Limits(num(0.0), num(11.0))));
    figure.plot(
        Curve::Lines { x: bits(&[1.0, 2.0, 3.0]), y: bits(&[4.0, 5.0, 6.0]) },
        |p| p,
        &product,
    );
    let script = figure.script();
    let text = "set encoding utf8\n\
                set output 'output.plot'\n\
                set xtics nomirror \n\
                set xrange [0:11]\n\
                set terminal svg dashed\n\
                unset bars\n\
                plot '-' binary endian=little record=3 format='%float64' using 1:2 with lines lt 1 notitle\n";
    assert_eq!(script, expect(text, &[1.0, 4.0, 2.0, 5.0, 3.0, 6.0]));
    assert_eq!(script.len(), text.len() + 48);
    let header = String::from_utf8(script[..text.len()].to_vec()).unwrap();
    assert_eq!(header.matches("plot '-'").count(), 1);
    assert_eq!(header.matches("xrange").count(), 1);
}

#[test]
fn a_scale_factor_multiplies_the_coordinates_on_its_axis_alone() {
    let mut figure = Figure::new();
    figure.configure_axis(Axis::BottomX, |a| a.scale_factor(2.0f64.to_bits()));
    figure.plot(
        Curve::Lines { x: bits(&[1.0, 2.0, 3.0]), y: bits(&[4.0, 5.0, 6.0]) },
        |p| p,
        &product,
    );
    let mut other = Figure::new();
    other.configure_axis(Axis::LeftY, |a| a.scale_factor(0.5f64.to_bits()));
    other.plot(
        Curve::Lines { x: bits(&[1.0, 2.0, 3.0]), y: bits(&[4.0, 5.0, 6.0]) },
        |p| p,
        &product,
    );
    let script = figure.script();
    assert_eq!(&script[script.len() - 48..], &le_bytes(&[2.0, 4.0, 4.0, 5.0, 6.0, 6.0])[..]);
    let script = other.script();
    assert_eq!(&script[script.len() - 48..], &le_bytes(&[1.0, 2.0, 2.0, 2.5, 3.0, 3.0])[..]);
}

#[test]
fn a_series_is_scaled_by_the_factors_of_the_axes_it_chooses() {
    let mut figure = Figure::new();
    figure.configure_axis(Axis::BottomX, |a| a.scale_factor(2.0f64.to_bits()));
    figure.configure_axis(Axis::LeftY, |a| a.scale_factor(3.0f64.to_bits()));
    figure.configure_axis(Axis::RightY, |a| a.scale_factor(5.0f64.to_bits()));
    figure.configure_axis(Axis::TopX, |a| a.scale_factor(7.0f64.to_bits()));
    figure.plot(
        Curve::Dots { x: bits(&[1.0]), y: bits(&[1.0]) },
        |p| p.axes(Axes::TopXRightY),
        &product,
    );
    figure.plot(
        FilledCurve { x: bits(&[1.0]), y1: bits(&[1.0]), y2: bits(&[10.0]) },
        |p| p.axes(Axes::BottomXRightY),
        &product,
    );
    figure.plot(
        FilledCurve { x: bits(&[1.0]), y1: bits(&[1.0]), y2: bits(&[10.0]) },
        |p| p,
        &product,
    );
    let script = figure.script();
    let samples = [7.0, 5.0, 2.0, 5.0, 50.0, 2.0, 3.0, 30.0];
    assert_eq!(&script[script.len() - 64..], &le_bytes(&samples)[..]);
    let text = String::from_utf8(script[..script.len() - 64].to_vec()).unwrap();
    assert!(text.ends_with(
        "plot '-' binary endian=little record=1 format='%float64' using 1:2 axes x2y2 with dots lt 1 notitle, \
         '-' binary endian=little record=1 format='%float64' using 1:2:3 axes x1y2 with filledcurves fillstyle noborder notitle, \
         '-' binary endian=little record=1 format='%float64' using 1:2:3 with filledcurves fillstyle noborder notitle\n"
    ));
}

#[test]
fn the_ends_of_error_bars_are_scaled_like_the_coordinate_they_belong_to() {
    let mut figure = Figure::new();
    figure.configure_axis(Axis::BottomX, |a| a.scale_factor(2.0f64.to_bits()));
    figure.configure_axis(Axis::LeftY, |a| a.scale_factor(10.0f64.to_bits()));
    figure.plot(
        ErrorBar::XErrorBars {
            x: bits(&[1.0]),
            y: bits(&[2.0]),
            x_low: bits(&[0.5]),
            x_high: bits(&[1.5]),
        },
        |p| p,
        &product,
    );
    figure.plot(
        ErrorBar::YErrorLines {
            x: bits(&[1.0]),
            y: bits(&[2.0]),
            y_low: bits(&[1.5]),
            y_high: bits(&[2.5]),
        },
        |p| p.label("y"),
        &product,
    );
    let script = figure.script();
    let samples = [2.0, 20.0, 1.0, 3.0, 2.0, 20.0, 15.0, 25.0];
    assert_eq!(&script[script.len() - 64..], &le_bytes(&samples)[..]);
    let text = String::from_utf8(script[..script.len() - 64].to_vec()).unwrap();
    assert!(text.ends_with(
        "plot '-' binary endian=little record=1 format='%float64' using 1:2:3:4 with xerrorbars lt 1 notitle, \
         '-' binary endian=little record=1 format='%float64' using 1:2:3:4 with yerrorlines lt 1 title 'y'\n"
    ));
}

#[test]
fn candlesticks_send_the_box_before_the_whiskers() {
    let mut figure = Figure::new();
    figure.box_width(num(0.2));
    figure.configure_axis(Axis::LeftY, |a| a.scale_factor(2.0f64.to_bits()));
    figure.plot(
        Candlesticks {
            x: bits(&[1.0, 2.0]),
            whisker_min: bits(&[10.0, 11.0]),
            box_min: bits(&[20.0, 21.0]),
            box_high: bits(&[30.0, 31.0]),
            whisker_high: bits(&[40.0, 41.0]),
        },
        |p| p.color(Color::Black),
        &product,
    );
    let script = figure.script();
    let text = "set encoding utf8\n\
                set output 'output.plot'\n\
                set boxwidth 0.2\n\
                set ytics nomirror \n\
                set terminal svg dashed\n\
                unset bars\n\
                plot '-' binary endian=little record=2 format='%float64' using 1:2:3:4:5 with candlesticks lt 1 lc rgb 'black' notitle\n";
    let samples = [1.0, 40.0, 20.0, 80.0, 60.0, 2.0, 42.0, 22.0, 82.0, 62.0];
    assert_eq!(script, expect(text, &samples));
}

#[test]
fn a_series_ends_with_its_shortest_column() {
    let mut figure = Figure::new();
    figure.plot(
        Curve::Impulses { x: bits(&[1.0, 2.0, 3.0]), y: bits(&[4.0, 5.0]) },
        |p| p,
        &product,
    );
    let script = figure.script();
    let text = format!(
        "{}{}plot '-' binary endian=little record=2 format='%float64' using 1:2 with impulses lt 1 notitle\n",
        HEAD, TAIL
    );
    assert_eq!(script, expect(&text, &[1.0, 4.0, 2.0, 5.0]));
}

#[test]
fn series_without_samples_are_passed_over() {
    let mut figure = Figure::new();
    figure.plot(Curve::Lines { x: Vec::new(), y: bits(&[1.0]) }, |p| p.label("none"), &product);
    let text = format!("{}{}\n", HEAD, TAIL);
    assert_eq!(figure.script(), text.as_bytes().to_vec());

    figure.plot(Curve::Steps { x: bits(&[1.0]), y: bits(&[2.0]) }, |p| p.label("one"), &product);
    figure.plot(Curve::Lines { x: bits(&[1.0]), y: Vec::new() }, |p| p, &product);
    figure.plot(Curve::Points { x: bits(&[3.0]), y: bits(&[4.0]) }, |p| p.label("two"), &product);
    let text = format!(
        "{}{}plot '-' binary endian=little record=1 format='%float64' using 1:2 with steps lt 1 title 'one', \
         '-' binary endian=little record=1 format='%float64' using 1:2 with points lt 1 title 'two'\n",
        HEAD, TAIL
    );
    assert_eq!(figure.script(), expect(&text, &[1.0, 2.0, 3.0, 4.0]));
}

#[test]
fn the_directives_come_in_a_fixed_order() {
    let mut figure = Figure::new();
    figure.terminal(Terminal::Svg);
    figure.font_size(num(12.0));
    figure.font("Helvetica");
    figure.figure_size(1280, 720);
    figure.configure_grid(|g| g.layer(GridLayer::Front));
    figure.configure_key(|k| k.position(Position::Outside(Vertical::Top, Horizontal::Right)));
    figure.configure_axis(Axis::TopX, |a| a.label("top"));
    figure.configure_axis(Axis::RightY, |a| a.label("right"));
    figure.configure_axis(Axis::BottomX, |a| a.label("bottom"));
    figure.configure_axis(Axis::LeftY, |a| a.label("left"));
    figure.configure_axis(Axis::TopX, |a| a.scale(Scale::Logarithmic));
    figure.title("Frequency response");
    figure.box_width(num(0.0));
    figure.output("target/multiaxis.svg");
    let text = "set encoding utf8\n\
                set output 'target/multiaxis.svg'\n\
                set boxwidth 0\n\
                set title 'Frequency response'\n\
                set xtics nomirror \n\
                set xlabel 'bottom'\n\
                set ytics nomirror \n\
                set ylabel 'left'\n\
                unset y2tics\n\
                set x2tics nomirror \n\
                set x2label 'top'\n\
                set logscale x2\n\
                set key on outside top right \n\
                set grid front ,\n\
                set terminal svg dashed size 1280, 720 font 'Helvetica,12'\n\
                unset bars\n";
    assert_eq!(String::from_utf8(figure.script()).unwrap(), text);
}

#[test]
fn a_hidden_axis_leaves_one_directive_in_the_script() {
    let mut figure = Figure::new();
    figure.configure_axis(Axis::BottomX, |a| {
        a.label("gone")
            .range(Range::Limits(num(0.0), num(1.0)))
            .scale(Scale::Logarithmic)
            .configure_major_grid(|g| g.show())
            .conceal()
    });
    let text = format!("{}unset xtics\n{}", HEAD, TAIL);
    assert_eq!(String::from_utf8(figure.script()).unwrap(), text);
}

#[test]
fn an_axis_on_the_right_or_top_is_hidden_until_it_is_shown() {
    let mut figure = Figure::new();
    figure.configure_axis(Axis::RightY, |a| a.label("Phase"));
    figure.configure_axis(Axis::TopX, |a| a.scale_factor(2.0f64.to_bits()));
    let text = format!("{}unset y2tics\nunset x2tics\n{}", HEAD, TAIL);
    assert_eq!(String::from_utf8(figure.script()).unwrap(), text);
    figure.configure_axis(Axis::RightY, |a| a.show());
    figure.configure_axis(Axis::TopX, |a| a.range(Range::Auto));
    let text = format!(
        "{}set y2tics nomirror \nset y2label 'Phase'\nset x2tics nomirror \n{}",
        HEAD, TAIL
    );
    assert_eq!(String::from_utf8(figure.script()).unwrap(), text);
}

#[test]
fn a_font_is_named_with_or_without_its_size() {
    let mut figure = Figure::new();
    figure.font_size(num(9.5));
    assert_eq!(
        String::from_utf8(figure.script()).unwrap(),
        format!("{}set terminal svg dashed\nunset bars\n", HEAD)
    );
    figure.font("Fira Sans");
    assert_eq!(
        String::from_utf8(figure.script()).unwrap(),
        format!("{}set terminal svg dashed font 'Fira Sans,9.5'\nunset bars\n", HEAD)
    );
    let mut figure = Figure::new();
    figure.font("Fira Sans");
    figure.figure_size(4, 3);
    assert_eq!(
        String::from_utf8(figure.script()).unwrap(),
        format!("{}set terminal svg dashed size 4, 3 font 'Fira Sans'\nunset bars\n", HEAD)
    );
}

#[test]
fn text_is_sent_as_utf8() {
    let mut figure = Figure::new();
    figure.title("Phase shift (°)");
    let text = format!("{}set title 'Phase shift (°)'\n{}", HEAD, TAIL);
    assert_eq!(figure.script(), text.as_bytes().to_vec());
}

#[test]
fn dump_appends_the_script_to_the_sink() {
    let mut figure = Figure::new();
    figure.plot(Curve::Lines { x: bits(&[1.0]), y: bits(&[2.0]) }, |p| p, &product);
    let mut sink = vec![1u8, 2, 3];
    figure.dump(&mut sink);
    let mut expected = vec![1u8, 2, 3];
    expected.extend_from_slice(&figure.script());
    assert_eq!(sink, expected);
}

#[test]
fn configuring_again_goes_on_from_what_is_held() {
    let mut figure = Figure::new();
    figure.configure_key(|k| k.title("first"));
    figure.configure_key(|k| k.boxed(ploteria::key::Boxed::Yes));
    figure.configure_grid(|g| g.layer(GridLayer::Back));
    figure.configure_grid(|g| g.configure_major(|s| s.color(Color::Gray)));
    figure.configure_axis(Axis::LeftY, |a| a.label("first"));
    figure.configure_axis(Axis::LeftY, |a| a.range(Range::Limits(num(-1.0), num(1.0))));
    let text = format!(
        "{}set ytics nomirror \nset ylabel 'first'\nset yrange [-1:1]\n\
         set key on title 'first' box \nset grid back lc rgb 'gray' ,\n{}",
        HEAD, TAIL
    );
    assert_eq!(String::from_utf8(figure.script()).unwrap(), text);
}

#[test]
fn the_factor_of_an_axis_that_was_not_configured_is_one() {
    let mut map = AxisMap::new();
    assert_eq!(scale_factor(&map, Axes::BottomXLeftY), (1.0f64.to_bits(), 1.0f64.to_bits()));
    map.insert(Axis::RightY, ploteria::axis::AxisProperties::new(Axis::BottomX).scale_factor(3.0f64.to_bits()));
    map.insert(Axis::TopX, ploteria::axis::AxisProperties::new(Axis::BottomX).scale_factor(4.0f64.to_bits()));
    assert_eq!(scale_factor(&map, Axes::BottomXLeftY), (1.0f64.to_bits(), 1.0f64.to_bits()));
    assert_eq!(scale_factor(&map, Axes::BottomXRightY), (1.0f64.to_bits(), 3.0f64.to_bits()));
    assert_eq!(scale_factor(&map, Axes::TopXLeftY), (4.0f64.to_bits(), 1.0f64.to_bits()));
    assert_eq!(scale_factor(&map, Axes::TopXRightY), (4.0f64.to_bits(), 3.0f64.to_bits()));
}

#[test]
fn a_figure_reads_the_factors_of_its_axes() {
    let mut figure = Figure::new();
    assert_eq!(figure.scale_factors(Axes::TopXRightY), (1.0f64.to_bits(), 1.0f64.to_bits()));
    figure.configure_axis(Axis::TopX, |a| a.scale_factor(0.25f64.to_bits()));
    assert_eq!(figure.scale_factors(Axes::TopXRightY), (0.25f64.to_bits(), 1.0f64.to_bits()));
    assert_eq!(figure.scale_factors(Axes::BottomXRightY), (1.0f64.to_bits(), 1.0f64.to_bits()));
}

#[test]
fn a_series_keeps_its_samples_and_its_style() {
    let data = ploteria::data::Matrix::new(
        &vec![bits(&[1.0, 2.0]), bits(&[3.0, 4.0])],
        &bits(&[1.0, 10.0]),
        &product,
    );
    let plot = ploteria::figure::Plot::new(data, "with lines".to_string());
    assert_eq!(plot.script(), "with lines");
    assert_eq!(plot.data().nrows(), 2);
    assert_eq!(plot.data().ncols(), 2);
    assert_eq!(plot.data().bytes(), &le_bytes(&[1.0, 30.0, 2.0, 40.0])[..]);
    let copy = plot.clone();
    assert_eq!(copy.data().bytes(), plot.data().bytes());
}

#[test]
fn the_prelude_brings_what_a_plot_needs() {
    let mut figure = Figure::new();
    figure.plot(Lines { x: bits(&[0.0]), y: bits(&[1.0]) }, |p| p, &product);
    figure.plot(
        XErrorBars { x: bits(&[0.0]), y: bits(&[1.0]), x_low: bits(&[-1.0]), x_high: bits(&[1.0]) },
        |p| p,
        &product,
    );
    let script = figure.script();
    assert_eq!(&script[script.len() - 48..], &le_bytes(&[0.0, 1.0, 0.0, 1.0, -1.0, 1.0])[..]);
}
