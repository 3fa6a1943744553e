//! The measurement: a value and its unit, set as one run of text or as
//! three runs of falling size: whole part, unit, fractional digits.

use crate::digits::{decimal, padded, to_decimal, to_padded};
use crate::geometry::{Point, Rectangle};
use crate::sequence::Next;
use crate::typeface::{extent, measurable, text_extent, Typeface};
use vstd::prelude::*;
use vstd::string::StringExecFns;

verus! {

/// How far right of the whole part's bottom right pixel the unit starts.
pub const UNIT_GAP: i32 = 4;

/// How many digits the fraction of a measurement shows.
#[derive(Clone, Copy, Debug, PartialEq, Eq, Structural)]
pub enum Precision {
    /// No digits apart: the value is shown as it is, in one run with its
    /// unit.
    Plain,
    /// One digit: tenths.
    Single,
    /// Two digits: hundredths.
    Double,
}

impl Precision {
    /// The number of runs of text that make up a measurement.
    pub open spec fn run_count(self) -> nat {
        match self {
            Precision::Plain => 1,
            Precision::Single | Precision::Double => 3,
        }
    }

    /// Where the fraction starts, as seen from the top left pixel of the
    /// unit: right and down.
    pub open spec fn fraction_shift(self) -> (int, int) {
        match self {
            Precision::Plain => (0, 0),
            Precision::Single => (2, 0),
            Precision::Double => (-2, -6),
        }
    }

    /// The typeface of the fraction.
    pub open spec fn fraction_face(self) -> Typeface {
        match self {
            Precision::Double => Typeface::Logisoso16,
            _ => Typeface::Logisoso22,
        }
    }
}

/// How a measurement looks.
#[derive(Clone, Copy, Debug, PartialEq, Eq, Structural)]
pub struct MeasurementStyle {
    pub precision: Precision,
}

impl MeasurementStyle {
    /// The style with the given precision.
    pub fn with_precision(precision: Precision) -> (style: MeasurementStyle)
        ensures
            style.precision == precision,
    {
        MeasurementStyleBuilder::new().precision(precision).build()
    }
}

impl Default for MeasurementStyle {
    /// The style with one fractional digit.
    fn default() -> (style: Self)
        ensures
            style.precision == Precision::Single,
    {
        MeasurementStyleBuilder::new().build()
    }
}

/// Builds a [`MeasurementStyle`].
#[derive(Clone, Copy, Debug, PartialEq, Eq, Structural)]
pub struct MeasurementStyleBuilder {
    pub style: MeasurementStyle,
}

impl MeasurementStyleBuilder {
    /// Starts with one fractional digit.
    pub fn new() -> (builder: MeasurementStyleBuilder)
        ensures
            builder.style.precision == Precision::Single,
    {
        MeasurementStyleBuilder { style: MeasurementStyle { precision: Precision::Single } }
    }

    /// Sets the number of fractional digits.
    pub fn precision(self, precision: Precision) -> (builder: MeasurementStyleBuilder)
        ensures
            builder.style.precision == precision,
    {
        MeasurementStyleBuilder { style: MeasurementStyle { precision } }
    }

    /// Hands out the finished style.
    pub fn build(self) -> (style: MeasurementStyle)
        ensures
            style == self.style,
    {
        self.style
    }
}

/// Why a measurement with fractional digits cannot be laid out.
#[derive(Clone, Copy, Debug, PartialEq, Eq, Structural)]
pub enum LayoutError {
    /// Measuring the whole part or the unit, or placing a run by what was
    /// measured, would leave the range of `i32`.
    OutOfRange,
    /// The whole part covers no pixel, so it has no corner to put the unit
    /// at.
    NoExtent,
}

/// Why drawing a measurement failed.
#[derive(Debug, PartialEq)]
pub enum DrawError<E> {
    /// The measurement could not be laid out; nothing was painted.
    Layout(LayoutError),
    /// Painting a run failed, with this error.
    Target(E),
}

/// A measured value, in the forms in which a measurement shows it.
#[derive(Debug, PartialEq)]
pub struct Reading {
    /// The value in decimal notation.
    pub text: String,
    /// The value without its fractional part, sign kept, in decimal
    /// notation.
    pub whole: String,
    /// The size of the fractional part in tenths, rounded to the nearest;
    /// `None` where the value is not finite.
    pub tenths: Option<u32>,
    /// The size of the fractional part in hundredths, rounded to the
    /// nearest; `None` where the value is not finite.
    pub hundredths: Option<u32>,
}

/// The text that stands for a fraction that is not a number.
pub open spec fn not_a_number() -> Seq<char> {
    seq!['N', 'a', 'N']
}

impl Reading {
    pub fn new(text: String, whole: String, tenths: Option<u32>, hundredths: Option<u32>) -> (reading: Reading)
        ensures
            reading == (Reading { text, whole, tenths, hundredths }),
    {
        Reading { text, whole, tenths, hundredths }
    }

    /// The fractional digits at the given precision: the tenths as they
    /// are, the hundredths with a zero in front where they are fewer than
    /// ten. A fraction that rounding has carried to ten tenths or a hundred
    /// hundredths keeps all its digits.
    pub open spec fn fraction(self, precision: Precision) -> Seq<char> {
        match precision {
            Precision::Plain => Seq::empty(),
            Precision::Single => match self.tenths {
                Some(n) => decimal(n as nat),
                None => not_a_number(),
            },
            Precision::Double => match self.hundredths {
                Some(n) => padded(n as nat, 2),
                None => not_a_number(),
            },
        }
    }

    /// The text of the fractional digits at the given precision.
    pub fn fraction_text(&self, precision: Precision) -> (text: String)
        ensures
            text@ == self.fraction(precision),
    {
        let count = match precision {
            Precision::Plain => {
                let text = String::new();
                assert(text@ =~= Seq::<char>::empty());
                return text;
            },
            Precision::Single => self.tenths,
            Precision::Double => self.hundredths,
        };
        match count {
            Some(n) => match precision {
                Precision::Double => to_padded(n, 2),
                _ => to_decimal(n),
            },
            None => {
                proof {
                    reveal_strlit("NaN");
                }
                let text = String::from_str("NaN");
                assert(text@ =~= not_a_number());
                text
            },
        }
    }
}

/// One run of text of a measurement, as it is to be drawn.
#[derive(Debug, PartialEq)]
pub struct TextRun<C> {
    pub text: String,
    /// Where the baseline of the run starts.
    pub position: Point,
    pub face: Typeface,
    pub color: C,
}

/// What a [`TextRun`] says, with its text as a sequence of characters.
pub struct Run<C> {
    pub text: Seq<char>,
    pub position: Point,
    pub face: Typeface,
    pub color: C,
}

impl<C> View for TextRun<C> {
    type V = Run<C>;

    open spec fn view(&self) -> Run<C> {
        Run { text: self.text@, position: self.position, face: self.face, color: self.color }
    }
}

/// The place of a run, where there is one in the range of `i32`.
pub open spec fn placed(at: Option<Point>) -> Result<Point, LayoutError> {
    match at {
        Some(at) => Ok(at),
        None => Err(LayoutError::OutOfRange),
    }
}

/// Where the unit starts, given the pixels that the whole part covers: on
/// the row of their bottom right pixel, `UNIT_GAP` pixels right of it.
pub open spec fn unit_anchor_of(whole: Rectangle) -> Result<Point, LayoutError> {
    if whole.is_empty() {
        Err(LayoutError::NoExtent)
    } else {
        match whole.corner() {
            Some(corner) => placed(corner.moved(UNIT_GAP as int, 0)),
            None => Err(LayoutError::OutOfRange),
        }
    }
}

/// Where the fraction starts, given the pixels that the unit covers: at
/// their top left pixel, moved by the shift of the precision.
pub open spec fn fraction_anchor_of(precision: Precision, unit: Rectangle) -> Result<
    Point,
    LayoutError,
> {
    placed(unit.top_left.moved(precision.fraction_shift().0, precision.fraction_shift().1))
}

/// The unit starts exactly `UNIT_GAP` pixels right of the last pixel of the
/// whole part's bottom row. It has a place unless the whole part covers no
/// pixel or that place lies outside the range of `i32`.
pub proof fn unit_follows_whole(whole: Rectangle)
    ensures
        unit_anchor_of(whole) matches Ok(at) ==> {
            &&& at.x == whole.top_left.x + whole.size.width - 1 + UNIT_GAP
            &&& at.y == whole.top_left.y + whole.size.height - 1
            &&& !whole.is_empty()
        },
        unit_anchor_of(whole) == Err::<Point, LayoutError>(LayoutError::NoExtent)
            <==> whole.is_empty(),
        unit_anchor_of(whole) == Err::<Point, LayoutError>(LayoutError::OutOfRange) <==> {
            &&& !whole.is_empty()
            &&& (whole.top_left.x + whole.size.width - 1 + UNIT_GAP > i32::MAX
                || whole.top_left.y + whole.size.height - 1 > i32::MAX)
        },
{
}

/// The fraction starts at the unit's top left pixel, moved by the shift of
/// the precision: two pixels right for tenths, two left and six up for
/// hundredths. It has a place wherever that lies in the range of `i32`.
pub proof fn fraction_follows_unit(precision: Precision, unit: Rectangle)
    ensures
        fraction_anchor_of(precision, unit) matches Ok(at) ==> {
            &&& at.x == unit.top_left.x + precision.fraction_shift().0
            &&& at.y == unit.top_left.y + precision.fraction_shift().1
        },
        precision == Precision::Single ==> precision.fraction_shift() == (2int, 0int),
        precision == Precision::Double ==> precision.fraction_shift() == (-2int, -6int),
        fraction_anchor_of(precision, unit) is Ok <==> {
            &&& i32::MIN <= unit.top_left.x + precision.fraction_shift().0 <= i32::MAX
            &&& i32::MIN <= unit.top_left.y + precision.fraction_shift().1 <= i32::MAX
        },
{
}

/// Accepts the place of a run where there is one.
fn place(at: Option<Point>) -> (found: Result<Point, LayoutError>)
    ensures
        found == placed(at),
{
    match at {
        Some(at) => Ok(at),
        None => Err(LayoutError::OutOfRange),
    }
}

/// Finds where the unit starts, from the pixels that the whole part covers.
/// A whole part that covers no pixel has no place for the unit.
pub fn unit_anchor(whole: Rectangle) -> (anchor: Result<Point, LayoutError>)
    ensures
        anchor == unit_anchor_of(whole),
{
    if whole.size.width == 0 || whole.size.height == 0 {
        return Err(LayoutError::NoExtent);
    }
    match whole.bottom_right() {
        Some(corner) => place(corner.offset(UNIT_GAP, 0)),
        None => Err(LayoutError::OutOfRange),
    }
}

/// Finds where the fraction starts, from the pixels that the unit covers.
pub fn fraction_anchor(precision: Precision, unit: Rectangle) -> (anchor: Result<
    Point,
    LayoutError,
>)
    ensures
        anchor == fraction_anchor_of(precision, unit),
{
    let (right, down): (i32, i32) = match precision {
        Precision::Plain => (0, 0),
        Precision::Single => (2, 0),
        Precision::Double => (-2, -6),
    };
    place(unit.top_left.offset(right, down))
}

/// A measurement to be drawn once.
#[derive(Debug, PartialEq)]
pub struct Measurement<'a, C> {
    pub color: C,
    pub position: Point,
    pub value: Reading,
    pub unit: &'a str,
    pub style: MeasurementStyle,
}

impl<'a, C> Measurement<'a, C> {
    pub fn new(
        color: C,
        position: Point,
        value: Reading,
        unit: &'a str,
        style: MeasurementStyle,
    ) -> (measurement: Self)
        ensures
            measurement == (Measurement { color, position, value, unit, style }),
    {
        Measurement { color, position, value, unit, style }
    }

    /// The single run of a measurement without fractional digits: value and
    /// unit, one after the other, in the largest typeface.
    pub open spec fn plain(self) -> Seq<Run<C>> {
        seq![
            Run {
                text: self.value.text@ + self.unit@,
                position: self.position,
                face: Typeface::Logisoso42,
                color: self.color,
            },
        ]
    }

    /// The three runs of a measurement with fractional digits, given where
    /// the unit and the fraction start: the whole part in the largest
    /// typeface, the unit, the fractional digits.
    pub open spec fn split(self, unit_at: Point, fraction_at: Point) -> Seq<Run<C>> {
        seq![
            Run {
                text: self.value.whole@,
                position: self.position,
                face: Typeface::Logisoso42,
                color: self.color,
            },
            Run {
                text: self.unit@,
                position: unit_at,
                face: Typeface::Logisoso18,
                color: self.color,
            },
            Run {
                text: self.value.fraction(self.style.precision),
                position: fraction_at,
                face: self.style.precision.fraction_face(),
                color: self.color,
            },
        ]
    }

    /// The runs of the measurement, in the order in which they are to be
    /// drawn, or why there are none. A measurement without fractional
    /// digits is measured nowhere, so it always has its run. One with
    /// fractional digits has its runs where whole part and unit can be
    /// measured and the whole part covers a pixel.
    pub open spec fn layout(self) -> Result<Seq<Run<C>>, LayoutError> {
        if self.style.precision == Precision::Plain {
            Ok(self.plain())
        } else if !measurable(self.value.whole@, self.position) {
            Err(LayoutError::OutOfRange)
        } else {
            let whole = text_extent(Typeface::Logisoso42, self.value.whole@, self.position);
            match unit_anchor_of(whole) {
                Err(e) => Err(e),
                Ok(unit_at) => if !measurable(self.unit@, unit_at) {
                    Err(LayoutError::OutOfRange)
                } else {
                    let unit = text_extent(Typeface::Logisoso18, self.unit@, unit_at);
                    match fraction_anchor_of(self.style.precision, unit) {
                        Err(e) => Err(e),
                        Ok(fraction_at) => Ok(self.split(unit_at, fraction_at)),
                    }
                },
            }
        }
    }

    /// Sets value and unit as one run.
    pub fn plain_runs(&self) -> (runs: Vec<TextRun<C>>) where C: Copy
        ensures
            spell(runs@, self.plain()),
            runs@.len() == 1,
    {
        let mut text = self.value.text.clone();
        text.append(self.unit);
        let mut runs: Vec<TextRun<C>> = Vec::new();
        runs.push(
            TextRun { text, position: self.position, face: Typeface::Logisoso42, color: self.color },
        );
        runs
    }

    /// Sets whole part, unit and fractional digits as three runs, the unit
    /// and the fraction where they are said to start.
    pub fn split_runs(&self, unit_at: Point, fraction_at: Point) -> (runs: Vec<TextRun<C>>) where
        C: Copy,

        ensures
            spell(runs@, self.split(unit_at, fraction_at)),
            runs@.len() == 3,
    {
        let fraction_face = match self.style.precision {
            Precision::Double => Typeface::Logisoso16,
            _ => Typeface::Logisoso22,
        };
        let mut runs: Vec<TextRun<C>> = Vec::new();
        runs.push(
            TextRun {
                text: self.value.whole.clone(),
                position: self.position,
                face: Typeface::Logisoso42,
                color: self.color,
            },
        );
        runs.push(
            TextRun {
                text: String::from_str(self.unit),
                position: unit_at,
                face: Typeface::Logisoso18,
                color: self.color,
            },
        );
        runs.push(
            TextRun {
                text: self.value.fraction_text(self.style.precision),
                position: fraction_at,
                face: fraction_face,
                color: self.color,
            },
        );
        runs
    }

    /// Lays the measurement out: one run where the precision asks for no
    /// digits apart, else three, each placed by the pixels that the one
    /// before it covers. They are to be drawn in this order, and none after
    /// one that failed.
    pub fn runs(&self) -> (found: Result<Vec<TextRun<C>>, LayoutError>) where C: Copy
        ensures
            match found {
                Ok(runs) => self.layout() matches Ok(said) && spell(runs@, said),
                Err(e) => self.layout() == Err::<Seq<Run<C>>, LayoutError>(e),
            },
            found matches Ok(runs) ==> runs@.len() == self.style.precision.run_count(),
            self.style.precision == Precision::Plain ==> found is Ok,
    {
        match self.style.precision {
            Precision::Plain => Ok(self.plain_runs()),
            _ => {
                let whole = match extent(
                    Typeface::Logisoso42,
                    self.value.whole.as_str(),
                    self.position,
                ) {
                    Some(whole) => whole,
                    None => {
                        return Err(LayoutError::OutOfRange);
                    },
                };
                let unit_at = unit_anchor(whole)?;
                let unit = match extent(Typeface::Logisoso18, self.unit, unit_at) {
                    Some(unit) => unit,
                    None => {
                        return Err(LayoutError::OutOfRange);
                    },
                };
                let fraction_at = fraction_anchor(self.style.precision, unit)?;
                Ok(self.split_runs(unit_at, fraction_at))
            },
        }
    }

    /// Whether `next` is what comes next in drawing the measurement when
    /// `done` of its runs were painted and the last of them ended as `last`
    /// says (`Ok` before the first): after a failure nothing but its error,
    /// as it came; where there is no layout, the reason, before any run is
    /// painted; else the next run of the layout; after the last run, the
    /// end.
    pub open spec fn is_next<E>(
        self,
        done: int,
        last: Result<(), E>,
        next: Next<TextRun<C>, DrawError<E>>,
    ) -> bool {
        match last {
            Err(error) => next == Next::<TextRun<C>, DrawError<E>>::Failed(
                DrawError::Target(error),
            ),
            Ok(_) => match self.layout() {
                Err(reason) => next == Next::<TextRun<C>, DrawError<E>>::Failed(
                    DrawError::Layout(reason),
                ),
                Ok(said) => if 0 <= done < said.len() {
                    next matches Next::Paint(run) && run@ == said[done]
                } else {
                    next is Finished
                },
            },
        }
    }

    /// Draws the measurement, one run at a call: says what is to be done
    /// after `done` runs were painted and the last of them ended as `last`
    /// (`Ok(())` before the first). The caller paints the run it is given
    /// and asks again with its outcome, until the answer is `Finished` or
    /// `Failed`. So the runs are painted in the order of the layout, none
    /// after one that failed, and a failure comes back as the painter gave
    /// it.
    pub fn step<E>(&self, done: usize, last: Result<(), E>) -> (next: Next<
        TextRun<C>,
        DrawError<E>,
    >) where C: Copy
        ensures
            self.is_next(done as int, last, next),
    {
        match last {
            Err(error) => Next::Failed(DrawError::Target(error)),
            Ok(_) => match self.runs() {
                Err(reason) => Next::Failed(DrawError::Layout(reason)),
                Ok(mut runs) => if done < runs.len() {
                    Next::Paint(runs.remove(done))
                } else {
                    Next::Finished
                },
            },
        }
    }

    /// A measurement without fractional digits is drawn as one run wherever
    /// it stands and whatever it says: the first step paints the run, the
    /// second ends the drawing, and only a failure of the painter fails it.
    pub proof fn plain_is_always_drawn<E>(
        self,
        done: int,
        last: Result<(), E>,
        next: Next<TextRun<C>, DrawError<E>>,
    )
        requires
            self.style.precision == Precision::Plain,
            self.is_next(done, last, next),
        ensures
            self.layout() == Ok::<Seq<Run<C>>, LayoutError>(self.plain()),
            last is Ok && done == 0 ==> (next matches Next::Paint(run) && run@ == self.plain()[0]),
            last is Ok && done >= 1 ==> next is Finished,
            next matches Next::Failed(reason) ==> (last matches Err(error) && reason
                == DrawError::Target(error)),
    {
    }
}

/// Whether the runs say, one by one, what `said` holds.
pub open spec fn spell<C>(runs: Seq<TextRun<C>>, said: Seq<Run<C>>) -> bool {
    &&& runs.len() == said.len()
    &&& forall|i: int| 0 <= i < runs.len() ==> (#[trigger] runs[i])@ == said[i]
}

} // verus!
