use ploteria::axis::grid::Gridline;
use ploteria::axis::{Axes, Axis, AxisProperties, Range, Scale, TicLabels};
use ploteria::grid::{GridLayer, GridOptions, GridStyle};
use ploteria::key::{
    Boxed, Horizontal, Justification, KeyProperties, Order, Position, Stacked, Vertical,
};
use ploteria::number::{is_non_negative, is_positive, is_unit_fraction};
use ploteria::text::decimal_text;
use ploteria::{Color, LineType, Number, PointType, Terminal};

fn num(x: f64) -> Number {
    Number::new(x.to_bits(), &format!("{}", x))
}

#[test]
fn decimal_numerals() {
    assert_eq!(decimal_text(0), "0");
    assert_eq!(decimal_text(7), "7");
    assert_eq!(decimal_text(10), "10");
    assert_eq!(decimal_text(1280), "1280");
    assert_eq!(decimal_text(usize::MAX), format!("{}", usize::MAX));
}

#[test]
fn numbers_keep_bits_and_text() {
    let n = num(0.5);
    assert_eq!(n.bits(), 0x3FE0_0000_0000_0000);
    assert_eq!(n.text(), "0.5");
    let m = n.clone();
    assert_eq!(m.bits(), n.bits());
    assert_eq!(m.text(), n.text());
}

#[test]
fn comparisons_with_zero_and_one_agree_with_the_doubles() {
    let samples = [
        0.0,
        -0.0,
        1.0,
        -1.0,
        0.5,
        1.0000000000000002,
        0.9999999999999999,
        5e-324,
        -5e-324,
        f64::MIN_POSITIVE,
        f64::MAX,
        f64::MIN,
        f64::INFINITY,
        f64::NEG_INFINITY,
        f64::NAN,
        -f64::NAN,
        2.0,
        1e300,
    ];
    for &x in &samples {
        let bits = x.to_bits();
        assert_eq!(is_positive(bits), x > 0.0);
        assert_eq!(is_non_negative(bits), x >= 0.0);
        assert_eq!(is_unit_fraction(bits), x >= 0.0 && x <= 1.0);
    }
    assert!(!is_positive(0x7FF0_0000_0000_0001));
    assert!(!is_non_negative(0xFFF8_0000_0000_0000));
}

#[test]
fn colors_have_names_or_hexadecimal_codes() {
    assert_eq!(Color::Black.display(), "black");
    assert_eq!(Color::Blue.display(), "blue");
    assert_eq!(Color::Cyan.display(), "cyan");
    assert_eq!(Color::DarkViolet.display(), "dark-violet");
    assert_eq!(Color::ForestGreen.display(), "forest-green");
    assert_eq!(Color::Gold.display(), "gold");
    assert_eq!(Color::Gray.display(), "gray");
    assert_eq!(Color::Green.display(), "green");
    assert_eq!(Color::Magenta.display(), "magenta");
    assert_eq!(Color::Red.display(), "red");
    assert_eq!(Color::White.display(), "white");
    assert_eq!(Color::Yellow.display(), "yellow");
    assert_eq!(Color::Rgb(0, 158, 115).display(), "#009e73");
    assert_eq!(Color::Rgb(86, 180, 233).display(), "#56b4e9");
    assert_eq!(Color::Rgb(255, 10, 0).display(), "#ff0a00");
}

#[test]
fn line_and_point_types_have_numbers() {
    assert_eq!(LineType::Dash.display(), "2");
    assert_eq!(LineType::Dot.display(), "3");
    assert_eq!(LineType::DotDash.display(), "4");
    assert_eq!(LineType::DotDotDash.display(), "5");
    assert_eq!(LineType::SmallDot.display(), "0");
    assert_eq!(LineType::Solid.display(), "1");
    assert_eq!(PointType::Circle.display(), "6");
    assert_eq!(PointType::FilledCircle.display(), "7");
    assert_eq!(PointType::FilledSquare.display(), "5");
    assert_eq!(PointType::FilledTriangle.display(), "9");
    assert_eq!(PointType::Plus.display(), "1");
    assert_eq!(PointType::Square.display(), "4");
    assert_eq!(PointType::Star.display(), "3");
    assert_eq!(PointType::Triangle.display(), "8");
    assert_eq!(PointType::X.display(), "2");
    assert_eq!(Terminal::Svg.display(), "svg");
}

#[test]
fn axes_have_names_and_an_order() {
    assert_eq!(Axis::BottomX.display(), "x");
    assert_eq!(Axis::LeftY.display(), "y");
    assert_eq!(Axis::RightY.display(), "y2");
    assert_eq!(Axis::TopX.display(), "x2");
    assert!(matches!(Axis::BottomX.next(), Some(Axis::LeftY)));
    assert!(matches!(Axis::LeftY.next(), Some(Axis::RightY)));
    assert!(matches!(Axis::RightY.next(), Some(Axis::TopX)));
    assert!(matches!(Axis::TopX.next(), None));
    assert_eq!(Axes::BottomXLeftY.display(), "x1y1");
    assert_eq!(Axes::BottomXRightY.display(), "x1y2");
    assert_eq!(Axes::TopXLeftY.display(), "x2y1");
    assert_eq!(Axes::TopXRightY.display(), "x2y2");
    assert!(matches!(Axes::TopXRightY.split(), (Axis::TopX, Axis::RightY)));
    assert!(matches!(Axes::BottomXRightY.split(), (Axis::BottomX, Axis::RightY)));
}

#[test]
fn a_default_key_is_switched_on_and_nothing_else() {
    assert_eq!(KeyProperties::default().script(), "set key on \n");
}

#[test]
fn a_hidden_key_is_switched_off_and_nothing_else() {
    let key = KeyProperties::default()
        .boxed(Boxed::Yes)
        .title("Legend")
        .position(Position::Inside(Vertical::Top, Horizontal::Left))
        .conceal();
    assert_eq!(key.script(), "set key off\n");
    assert_eq!(
        key.show().script(),
        "set key on inside top left title 'Legend' box \n"
    );
}

#[test]
fn the_clauses_of_a_key_come_in_a_fixed_order() {
    let key = KeyProperties::default()
        .title("Gaussian Distribution")
        .boxed(Boxed::Yes)
        .order(Order::SampleText)
        .justification(Justification::Left)
        .stacked(Stacked::Horizontally)
        .position(Position::Outside(Vertical::Bottom, Horizontal::Center));
    assert_eq!(
        key.script(),
        "set key on outside bottom center horizontal Left reverse title 'Gaussian Distribution' box \n"
    );
    let key = KeyProperties::default()
        .order(Order::TextSample)
        .justification(Justification::Right)
        .stacked(Stacked::Vertically)
        .position(Position::Inside(Vertical::Center, Horizontal::Right))
        .boxed(Boxed::Yes)
        .boxed(Boxed::No);
    assert_eq!(key.script(), "set key on inside center right vertical Right noreverse \n");
}

#[test]
fn gridlines_are_hidden_until_shown() {
    assert_eq!(Gridline::new(false).script(Axis::BottomX), "");
    assert_eq!(Gridline::new(false).show().script(Axis::BottomX), "set grid xtics\n");
    assert_eq!(Gridline::new(true).show().script(Axis::RightY), "set grid my2tics\n");
    assert_eq!(Gridline::new(true).show().conceal().script(Axis::RightY), "");
}

#[test]
fn a_new_axis_on_the_bottom_or_left_sets_its_tics_and_nothing_else() {
    assert_eq!(AxisProperties::new(Axis::LeftY).script(Axis::LeftY), "set ytics nomirror \n");
    assert_eq!(AxisProperties::new(Axis::BottomX).script(Axis::BottomX), "set xtics nomirror \n");
    assert_eq!(AxisProperties::new(Axis::LeftY).factor(), 1.0f64.to_bits());
}

#[test]
fn a_new_axis_on_the_right_or_top_is_hidden() {
    assert_eq!(AxisProperties::new(Axis::RightY).script(Axis::RightY), "unset y2tics\n");
    assert_eq!(AxisProperties::new(Axis::TopX).script(Axis::TopX), "unset x2tics\n");
    assert_eq!(
        AxisProperties::new(Axis::TopX).label("top").script(Axis::TopX),
        "unset x2tics\n"
    );
    assert_eq!(
        AxisProperties::new(Axis::TopX).label("top").show().script(Axis::TopX),
        "set x2tics nomirror \nset x2label 'top'\n"
    );
    assert_eq!(AxisProperties::new(Axis::RightY).factor(), 1.0f64.to_bits());
}

#[test]
fn the_directives_of_an_axis_come_in_a_fixed_order() {
    let tics = TicLabels {
        labels: vec!["-π".to_string(), "0".to_string(), "π".to_string()],
        positions: vec![num(-3.5), num(0.0), num(3.5)],
    };
    let axis = AxisProperties::new(Axis::TopX)
        .configure_minor_grid(|g| g.show())
        .configure_major_grid(|g| g.show())
        .scale(Scale::Logarithmic)
        .range(Range::Limits(num(1.1), num(90000.0)))
        .label("Angular frequency (rad/s)")
        .tick_labels(&tics);
    assert_eq!(
        axis.script(Axis::TopX),
        "set x2tics nomirror ('-π' -3.5, '0' 0, 'π' 3.5)\n\
         set x2label 'Angular frequency (rad/s)'\n\
         set x2range [1.1:90000]\n\
         set logscale x2\n\
         set grid x2tics\n\
         set grid mx2tics\n"
    );
    let axis = axis.scale(Scale::Linear).range(Range::Auto).configure_major_grid(|g| g.conceal());
    assert_eq!(
        axis.script(Axis::TopX),
        "set x2tics nomirror ('-π' -3.5, '0' 0, 'π' 3.5)\n\
         set x2label 'Angular frequency (rad/s)'\n\
         set grid mx2tics\n"
    );
}

#[test]
fn a_hidden_axis_has_its_tics_unset_and_nothing_else() {
    let tics = TicLabels { labels: vec!["a".to_string()], positions: vec![num(1.0)] };
    let axis = AxisProperties::new(Axis::BottomX)
        .label("hidden")
        .range(Range::Limits(num(0.0), num(1.0)))
        .scale(Scale::Logarithmic)
        .tick_labels(&tics)
        .configure_major_grid(|g| g.show())
        .configure_minor_grid(|g| g.show())
        .conceal();
    assert_eq!(axis.script(Axis::BottomX), "unset xtics\n");
    assert_eq!(axis.script(Axis::RightY), "unset y2tics\n");
}

#[test]
fn range_scale_and_tic_labels_show_a_hidden_axis() {
    let hidden = AxisProperties::new(Axis::BottomX).conceal();
    assert_eq!(hidden.clone().range(Range::Auto).script(Axis::LeftY), "set ytics nomirror \n");
    assert_eq!(hidden.clone().scale(Scale::Linear).script(Axis::LeftY), "set ytics nomirror \n");
    let tics = TicLabels { labels: Vec::new(), positions: Vec::new() };
    assert_eq!(hidden.clone().tick_labels(&tics).script(Axis::LeftY), "set ytics nomirror \n");
    assert_eq!(hidden.clone().label("l").script(Axis::LeftY), "unset ytics\n");
    assert_eq!(hidden.clone().scale_factor(2.0f64.to_bits()).script(Axis::LeftY), "unset ytics\n");
    assert_eq!(hidden.show().script(Axis::LeftY), "set ytics nomirror \n");
}

#[test]
fn tic_labels_pair_up_to_the_shorter_list() {
    let tics = TicLabels {
        labels: vec!["a".to_string(), "b".to_string(), "c".to_string()],
        positions: vec![num(1.0), num(2.5)],
    };
    let axis = AxisProperties::new(Axis::BottomX).tick_labels(&tics);
    assert_eq!(axis.script(Axis::BottomX), "set xtics nomirror ('a' 1, 'b' 2.5)\n");
    let tics = TicLabels { labels: vec!["a".to_string()], positions: vec![num(1.0), num(2.5)] };
    let axis = axis.tick_labels(&tics);
    assert_eq!(axis.script(Axis::BottomX), "set xtics nomirror ('a' 1)\n");
    let tics = TicLabels { labels: Vec::new(), positions: vec![num(1.0)] };
    let axis = axis.tick_labels(&tics);
    assert_eq!(axis.script(Axis::BottomX), "set xtics nomirror \n");
}

#[test]
fn the_scale_factor_of_an_axis_can_be_read_back() {
    let axis = AxisProperties::new(Axis::BottomX).scale_factor(2.0f64.to_bits());
    assert_eq!(f64::from_bits(axis.factor()), 2.0);
}

#[test]
fn a_default_grid_has_two_empty_styles() {
    assert_eq!(GridOptions::default().script(), "set grid ,\n");
    assert_eq!(GridStyle::default().script(), "");
}

#[test]
fn the_clauses_of_a_grid_come_in_a_fixed_order() {
    let grid = GridOptions::default()
        .configure_minor(|g| {
            g.line_type(LineType::Solid).color(Color::Blue).line_width(num(0.05))
        })
        .configure_major(|g| g.line_width(num(2.0)))
        .layer(GridLayer::Front);
    assert_eq!(grid.script(), "set grid front lw 2 ,lw 0.05 lc rgb 'blue' lt 1 \n");
    let grid = GridOptions::default().layer(GridLayer::Default);
    assert_eq!(grid.script(), "set grid layerdefault ,\n");
    let grid = grid.layer(GridLayer::Back).configure_major(|g| g.color(Color::Rgb(1, 2, 3)));
    assert_eq!(grid.script(), "set grid back lc rgb '#010203' ,\n");
}
