//! Key (or legend)

use vstd::prelude::*;
use vstd::string::*;

verus! {

/// Properties of the key.
///
/// Modified through [`configure_key`](crate::Figure::configure_key).
#[derive(Clone, Debug)]
pub struct KeyProperties {
    boxed: bool,
    hidden: bool,
    justification: Option<Justification>,
    order: Option<Order>,
    position: Option<Position>,
    stacked: Option<Stacked>,
    title: Option<&'static str>,
}

/// What a [`KeyProperties`] holds.
pub struct KeyPropertiesView {
    /// The key is surrounded by a box.
    pub boxed: bool,
    /// The key is not shown.
    pub hidden: bool,
    /// Justification of the text of each entry, if chosen.
    pub justification: Option<Justification>,
    /// Order of the parts of each entry, if chosen.
    pub order: Option<Order>,
    /// Placement of the key, if chosen.
    pub position: Option<Position>,
    /// Stacking direction of the entries, if chosen.
    pub stacked: Option<Stacked>,
    /// Title of the key, if any.
    pub title: Option<Seq<char>>,
}

/// Whether the key is surrounded by a box or not
#[derive(Clone, Copy, Debug)]
pub enum Boxed {
    No,
    Yes,
}

/// Horizontal position of the key
#[derive(Clone, Copy, Debug)]
pub enum Horizontal {
    /// Center of the figure
    Center,
    /// Left border of the figure
    Left,
    /// Right border of the figure
    Right,
}

/// Text justification of the key
#[derive(Clone, Copy, Debug)]
pub enum Justification {
    Left,
    Right,
}

/// Order of the elements of the key
#[derive(Clone, Copy, Debug)]
pub enum Order {
    /// Sample first, then text
    SampleText,
    /// Text first, then sample
    TextSample,
}

/// Position of the key
#[derive(Clone, Copy, Debug)]
pub enum Position {
    /// Inside the area surrounded by the four (BottomX, TopX, LeftY and RightY) axes
    Inside(Vertical, Horizontal),
    /// Outside of that area
    Outside(Vertical, Horizontal),
}

/// How the entries of the key are stacked
#[derive(Clone, Copy, Debug)]
pub enum Stacked {
    Horizontally,
    Vertically,
}

/// Vertical position of the key
#[derive(Clone, Copy, Debug)]
pub enum Vertical {
    /// Bottom border of the figure
    Bottom,
    /// Center of the figure
    Center,
    /// Top border of the figure
    Top,
}

impl Boxed {
    /// `Yes` as `true`, `No` as `false`.
    pub open spec fn truth(self) -> bool {
        self is Yes
    }

    /// Whether this is `Yes`.
    pub fn to_bool(self) -> (b: bool)
        ensures
            b == self.truth(),
    {
        match self {
            Boxed::Yes => true,
            Boxed::No => false,
        }
    }
}

impl Horizontal {
    /// The word for this position.
    pub open spec fn text(self) -> Seq<char> {
        match self {
            Horizontal::Center => "center"@,
            Horizontal::Left => "left"@,
            Horizontal::Right => "right"@,
        }
    }

    /// The word for this position in a script.
    pub fn display(self) -> (s: &'static str)
        ensures
            s@ == self.text(),
    {
        match self {
            Horizontal::Center => "center",
            Horizontal::Left => "left",
            Horizontal::Right => "right",
        }
    }
}

impl Justification {
    /// The word for this justification.
    pub open spec fn text(self) -> Seq<char> {
        match self {
            Justification::Left => "Left"@,
            Justification::Right => "Right"@,
        }
    }

    /// The word for this justification in a script.
    pub fn display(self) -> (s: &'static str)
        ensures
            s@ == self.text(),
    {
        match self {
            Justification::Left => "Left",
            Justification::Right => "Right",
        }
    }
}

impl Order {
    /// The word for this order.
    pub open spec fn text(self) -> Seq<char> {
        match self {
            Order::TextSample => "noreverse"@,
            Order::SampleText => "reverse"@,
        }
    }

    /// The word for this order in a script.
    pub fn display(self) -> (s: &'static str)
        ensures
            s@ == self.text(),
    {
        match self {
            Order::TextSample => "noreverse",
            Order::SampleText => "reverse",
        }
    }
}

impl Stacked {
    /// The word for this stacking direction.
    pub open spec fn text(self) -> Seq<char> {
        match self {
            Stacked::Horizontally => "horizontal"@,
            Stacked::Vertically => "vertical"@,
        }
    }

    /// The word for this stacking direction in a script.
    pub fn display(self) -> (s: &'static str)
        ensures
            s@ == self.text(),
    {
        match self {
            Stacked::Horizontally => "horizontal",
            Stacked::Vertically => "vertical",
        }
    }
}

impl Vertical {
    /// The word for this position.
    pub open spec fn text(self) -> Seq<char> {
        match self {
            Vertical::Bottom => "bottom"@,
            Vertical::Center => "center"@,
            Vertical::Top => "top"@,
        }
    }

    /// The word for this position in a script.
    pub fn display(self) -> (s: &'static str)
        ensures
            s@ == self.text(),
    {
        match self {
            Vertical::Bottom => "bottom",
            Vertical::Center => "center",
            Vertical::Top => "top",
        }
    }
}

/// The placement clause: `inside` or `outside`, then the vertical and the
/// horizontal anchor, each followed by a space.  Empty where no placement was
/// chosen.
pub open spec fn position_text(position: Option<Position>) -> Seq<char> {
    match position {
        None => Seq::empty(),
        Some(Position::Inside(v, h)) => "inside "@ + v.text() + " "@ + h.text() + " "@,
        Some(Position::Outside(v, h)) => "outside "@ + v.text() + " "@ + h.text() + " "@,
    }
}

/// The stacking clause, empty where none was chosen.
pub open spec fn stacked_text(stacked: Option<Stacked>) -> Seq<char> {
    match stacked {
        None => Seq::empty(),
        Some(s) => s.text() + " "@,
    }
}

/// The justification clause, empty where none was chosen.
pub open spec fn justification_text(justification: Option<Justification>) -> Seq<char> {
    match justification {
        None => Seq::empty(),
        Some(j) => j.text() + " "@,
    }
}

/// The ordering clause, empty where none was chosen.
pub open spec fn order_text(order: Option<Order>) -> Seq<char> {
    match order {
        None => Seq::empty(),
        Some(o) => o.text() + " "@,
    }
}

/// The title clause, empty where the key has no title.
pub open spec fn title_text(title: Option<Seq<char>>) -> Seq<char> {
    match title {
        None => Seq::empty(),
        Some(t) => "title '"@ + t + "' "@,
    }
}

/// The box clause, empty where the key is not boxed.
pub open spec fn boxed_text(boxed: bool) -> Seq<char> {
    if boxed {
        "box "@
    } else {
        Seq::empty()
    }
}

/// The directive for a key: `set key off` alone where the key is hidden, else
/// `set key on` followed by the clauses for placement, stacking,
/// justification, ordering, title and box, in that order, on one line.
pub open spec fn key_text(key: KeyPropertiesView) -> Seq<char> {
    if key.hidden {
        "set key off\n"@
    } else {
        "set key on "@ + position_text(key.position) + stacked_text(key.stacked)
            + justification_text(key.justification) + order_text(key.order) + title_text(
            key.title,
        ) + boxed_text(key.boxed) + "\n"@
    }
}

impl View for KeyProperties {
    type V = KeyPropertiesView;

    closed spec fn view(&self) -> KeyPropertiesView {
        KeyPropertiesView {
            boxed: self.boxed,
            hidden: self.hidden,
            justification: self.justification,
            order: self.order,
            position: self.position,
            stacked: self.stacked,
            title: match self.title {
                None => None,
                Some(t) => Some(t@),
            },
        }
    }
}

impl KeyPropertiesView {
    /// What the properties of a key hold before they are configured: a
    /// visible key without box, title or explicit placement.
    pub open spec fn initial() -> KeyPropertiesView {
        KeyPropertiesView {
            boxed: false,
            hidden: false,
            justification: None,
            order: None,
            position: None,
            stacked: None,
            title: None,
        }
    }
}

impl Default for KeyProperties {
    /// Properties with nothing configured.
    fn default() -> (key: KeyProperties)
        ensures
            key@ == KeyPropertiesView::initial(),
    {
        KeyProperties {
            boxed: false,
            hidden: false,
            justification: None,
            order: None,
            position: None,
            stacked: None,
            title: None,
        }
    }
}

impl KeyProperties {
    /// Hides the key
    pub fn conceal(self) -> (key: KeyProperties)
        ensures
            key@ == (KeyPropertiesView { hidden: true, ..self@ }),
    {
        let mut key = self;
        key.hidden = true;
        key
    }

    /// Shows the key
    ///
    /// **Note** The key is shown by default
    pub fn show(self) -> (key: KeyProperties)
        ensures
            key@ == (KeyPropertiesView { hidden: false, ..self@ }),
    {
        let mut key = self;
        key.hidden = false;
        key
    }

    /// Should the key be surrounded by a box or not?
    ///
    /// **Note** The key is not boxed by default
    pub fn boxed(self, boxed: Boxed) -> (key: KeyProperties)
        ensures
            key@ == (KeyPropertiesView { boxed: boxed.truth(), ..self@ }),
    {
        let mut key = self;
        key.boxed = boxed.to_bool();
        key
    }

    /// Changes the justification of the text of each entry
    ///
    /// **Note** The text is `RightJustified` by default
    pub fn justification(self, justification: Justification) -> (key: KeyProperties)
        ensures
            key@ == (KeyPropertiesView { justification: Some(justification), ..self@ }),
    {
        let mut key = self;
        key.justification = Some(justification);
        key
    }

    /// How to order each entry
    ///
    /// **Note** The default order is `TextSample`
    pub fn order(self, order: Order) -> (key: KeyProperties)
        ensures
            key@ == (KeyPropertiesView { order: Some(order), ..self@ }),
    {
        let mut key = self;
        key.order = Some(order);
        key
    }

    /// Selects where to place the key
    ///
    /// **Note** By default, the key is placed `Inside(Vertical::Top, Horizontal::Right)`
    pub fn position(self, position: Position) -> (key: KeyProperties)
        ensures
            key@ == (KeyPropertiesView { position: Some(position), ..self@ }),
    {
        let mut key = self;
        key.position = Some(position);
        key
    }

    /// Changes how the entries of the key are stacked
    pub fn stacked(self, stacked: Stacked) -> (key: KeyProperties)
        ensures
            key@ == (KeyPropertiesView { stacked: Some(stacked), ..self@ }),
    {
        let mut key = self;
        key.stacked = Some(stacked);
        key
    }

    /// Set the title
    pub fn title(self, title: &'static str) -> (key: KeyProperties)
        ensures
            key@ == (KeyPropertiesView { title: Some(title@), ..self@ }),
    {
        let mut key = self;
        key.title = Some(title);
        key
    }

    /// The directive that sets up the key.
    pub fn script(&self) -> (script: String)
        ensures
            script@ == key_text(self@),
    {
        if self.hidden {
            return "set key off\n".to_owned();
        }
        let position = position_script(self.position);
        let stacked = stacked_script(self.stacked);
        let justification = justification_script(self.justification);
        let order = order_script(self.order);
        let title = title_script(self.title);
        let boxed = boxed_script(self.boxed);
        let mut script = "set key on ".to_owned();
        script.append(position.as_str());
        script.append(stacked.as_str());
        script.append(justification.as_str());
        script.append(order.as_str());
        script.append(title.as_str());
        script.append(boxed.as_str());
        script.append("\n");
        script
    }
}

fn position_script(position: Option<Position>) -> (s: String)
    ensures
        s@ == position_text(position),
{
    match position {
        None => String::new(),
        Some(Position::Inside(v, h)) => {
            let mut s = "inside ".to_owned();
            s.append(v.display());
            s.append(" ");
            s.append(h.display());
            s.append(" ");
            s
        },
        Some(Position::Outside(v, h)) => {
            let mut s = "outside ".to_owned();
            s.append(v.display());
            s.append(" ");
            s.append(h.display());
            s.append(" ");
            s
        },
    }
}

fn stacked_script(stacked: Option<Stacked>) -> (s: String)
    ensures
        s@ == stacked_text(stacked),
{
    match stacked {
        None => String::new(),
        Some(stacked) => {
            let mut s = stacked.display().to_owned();
            s.append(" ");
            s
        },
    }
}

fn justification_script(justification: Option<Justification>) -> (s: String)
    ensures
        s@ == justification_text(justification),
{
    match justification {
        None => String::new(),
        Some(justification) => {
            let mut s = justification.display().to_owned();
            s.append(" ");
            s
        },
    }
}

fn order_script(order: Option<Order>) -> (s: String)
    ensures
        s@ == order_text(order),
{
    match order {
        None => String::new(),
        Some(order) => {
            let mut s = order.display().to_owned();
            s.append(" ");
            s
        },
    }
}

fn title_script(title: Option<&'static str>) -> (s: String)
    ensures
        s@ == title_text(
            match title {
                None => None,
                Some(t) => Some(t@),
            },
        ),
{
    match title {
        None => String::new(),
        Some(title) => {
            let mut s = "title '".to_owned();
            s.append(title);
            s.append("' ");
            s
        },
    }
}

fn boxed_script(boxed: bool) -> (s: String)
    ensures
        s@ == boxed_text(boxed),
{
    if boxed {
        "box ".to_owned()
    } else {
        String::new()
    }
}

} // verus!
