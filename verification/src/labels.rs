//! The rolling window of week labels: one label per ISO week, starting at
//! the week of a reference date.
//!
//! The window rolls over after week 52 in every year. Years with a week 53
//! are not treated specially: a window that starts in week 53 holds that one
//! label and continues with week 1 of the next year, and no later week 53 is
//! generated.

use chrono::{Datelike, NaiveDate};
use vstd::prelude::*;
use crate::tools::color::{is_hex_color, week_color, week_color_text, LAST_WEEK};
use crate::tools::text::{
    decimal_two,
    lemma_decimal_two_shape,
    lemma_signed_decimal_injective,
    lemma_split_at_last_dash,
    push_decimal_two,
    push_signed_decimal,
    signed_decimal,
};

verus! {

/// The first year that a calendar date may lie in.
pub const MIN_YEAR: i32 = -262143;

/// The last year that a calendar date may lie in.
pub const MAX_YEAR: i32 = 262142;

/// A day of the proleptic Gregorian calendar, by year, month and day of the
/// month. Year 0 is 1 BCE.
#[derive(Clone, Copy, Debug)]
pub struct CalendarDate {
    pub year: i32,
    pub month: u32,
    pub day: u32,
}

/// Whether `year` has a 29th of February.
pub open spec fn is_leap_year(year: int) -> bool {
    year % 4 == 0 && (year % 100 != 0 || year % 400 == 0)
}

/// The number of days of a month of a year; 0 for a month outside `1..=12`.
pub open spec fn days_in_month(year: int, month: int) -> int {
    if month == 2 {
        if is_leap_year(year) {
            29
        } else {
            28
        }
    } else if month == 4 || month == 6 || month == 9 || month == 11 {
        30
    } else if 1 <= month <= 12 {
        31
    } else {
        0
    }
}

/// Whether year, month and day name a day that exists, in a year between
/// `MIN_YEAR` and `MAX_YEAR`.
pub open spec fn is_calendar_date(year: int, month: int, day: int) -> bool {
    &&& MIN_YEAR <= year <= MAX_YEAR
    &&& 1 <= month <= 12
    &&& 1 <= day <= days_in_month(year, month)
}

/// The ISO 8601 week that a calendar date lies in, as week-numbering year
/// and week number. Weeks run from Monday to Sunday, and week 1 of a year is
/// the week that holds its first Thursday.
pub uninterp spec fn iso_week_of(year: int, month: int, day: int) -> (int, int);

/// `chrono::Datelike::iso_week` of the `chrono::NaiveDate` that
/// `NaiveDate::from_ymd_opt` makes of year, month and day, read through
/// `IsoWeek::year` and `IsoWeek::week`.
///
/// Claimed of chrono: a date is made exactly of the days that exist within
/// the supported years; the week depends on the date alone; its number lies
/// in `1..=53`; and its year is the calendar year or a neighbour of it.
#[verifier::external_body]
fn iso_week_of_date(year: i32, month: u32, day: u32) -> (found: Option<(i32, u32)>)
    ensures
        found is Some <==> is_calendar_date(year as int, month as int, day as int),
        found matches Some(week) ==> {
            &&& (week.0 as int, week.1 as int) == iso_week_of(
                year as int,
                month as int,
                day as int,
            )
            &&& year - 1 <= week.0 <= year + 1
            &&& 1 <= week.1 <= 53
        },
{
    match NaiveDate::from_ymd_opt(year, month, day) {
        Some(date) => {
            let week = date.iso_week();
            Some((week.year(), week.week()))
        },
        None => None,
    }
}

/// A label for one ISO week.
#[derive(Clone, Debug)]
pub struct WeekLabel {
    /// Week-numbering year.
    pub iso_year: i32,
    /// Week number.
    pub iso_week: u32,
    /// `week-<year>-<week>`, the week padded to two digits.
    pub name: String,
    /// Six lowercase hexadecimal digits.
    pub color: String,
    /// What the label is for, in words.
    pub description: String,
}

/// What a `WeekLabel` holds, as mathematical values.
pub ghost struct WeekLabelView {
    pub iso_year: int,
    pub iso_week: int,
    pub name: Seq<char>,
    pub color: Seq<char>,
    pub description: Seq<char>,
}

impl View for WeekLabel {
    type V = WeekLabelView;

    open spec fn view(&self) -> WeekLabelView {
        WeekLabelView {
            iso_year: self.iso_year as int,
            iso_week: self.iso_week as int,
            name: self.name@,
            color: self.color@,
            description: self.description@,
        }
    }
}

/// The text `week-` that every label name starts with.
pub open spec fn name_prefix() -> Seq<char> {
    seq!['w', 'e', 'e', 'k', '-']
}

/// The text `ISO week ` that every description starts with.
pub open spec fn description_prefix() -> Seq<char> {
    seq!['I', 'S', 'O', ' ', 'w', 'e', 'e', 'k', ' ']
}

/// The name of the label of a week: `week-`, the year, a dash, and the week
/// padded to two digits.
pub open spec fn label_name(year: int, week: int) -> Seq<char> {
    name_prefix() + signed_decimal(year) + seq!['-'] + decimal_two(week as nat)
}

/// The label of a week: its name, the gradient colour of the week number,
/// and a description that cites the name.
pub open spec fn label_of(year: int, week: int) -> WeekLabelView {
    WeekLabelView {
        iso_year: year,
        iso_week: week,
        name: label_name(year, week),
        color: week_color_text(week),
        description: description_prefix() + label_name(year, week),
    }
}

/// The week after a week: the next number in the same year, or week 1 of the
/// next year after week 52 (and after any later week).
pub open spec fn next_week(week: (int, int)) -> (int, int) {
    if week.1 >= LAST_WEEK {
        (week.0 + 1, 1)
    } else {
        (week.0, week.1 + 1)
    }
}

/// The week `steps` weeks after `start`.
pub open spec fn week_after(start: (int, int), steps: nat) -> (int, int)
    decreases steps,
{
    if steps == 0 {
        start
    } else {
        next_week(week_after(start, (steps - 1) as nat))
    }
}

/// The labels of `count` successive weeks, the first of them `start`.
pub open spec fn labels_from(start: (int, int), count: nat) -> Seq<WeekLabelView> {
    Seq::new(count, |i: int| label_of(week_after(start, i as nat).0, week_after(start, i as nat).1))
}

/// The views of a sequence of labels.
pub open spec fn label_views(labels: Seq<WeekLabel>) -> Seq<WeekLabelView> {
    Seq::new(labels.len(), |i: int| labels[i]@)
}

/// Whether no two labels of a sequence share a name.
pub open spec fn distinct_names(labels: Seq<WeekLabelView>) -> bool {
    forall|i: int, j: int|
        0 <= i < j < labels.len() ==> (#[trigger] labels[i]).name != (#[trigger] labels[j]).name
}

impl WeekLabel {
    /// Whether the label is the one that belongs to its year and week.
    pub open spec fn wf(&self) -> bool {
        self@ == label_of(self.iso_year as int, self.iso_week as int)
    }

    /// The label of week `iso_week` of `iso_year`.
    pub fn new(iso_year: i32, iso_week: u32) -> (label: WeekLabel)
        ensures
            label@ == label_of(iso_year as int, iso_week as int),
            label.wf(),
            is_hex_color(label.color@),
    {
        let mut name = String::from_str("week-");
        proof {
            reveal_strlit("week-");
            assert(name@ =~= name_prefix());
        }
        push_signed_decimal(&mut name, iso_year as i64);
        name.append("-");
        proof {
            reveal_strlit("-");
        }
        push_decimal_two(&mut name, iso_week as u64);
        assert(name@ =~= label_name(iso_year as int, iso_week as int));
        let mut description = String::from_str("ISO week ");
        proof {
            reveal_strlit("ISO week ");
            assert(description@ =~= description_prefix());
        }
        description.append(name.as_str());
        WeekLabel { iso_year, iso_week, name, color: week_color(iso_week), description }
    }
}

/// The week after week `week` of `year`. After week 52 comes week 1 of the
/// next year.
pub fn next_iso_week(year: i32, week: u32) -> (next: (i32, u32))
    requires
        week >= LAST_WEEK ==> year < i32::MAX,
    ensures
        (next.0 as int, next.1 as int) == next_week((year as int, week as int)),
        week == LAST_WEEK ==> next == (((year + 1) as i32, 1u32)),
        week < LAST_WEEK ==> next == ((year, (week + 1) as u32)),
{
    if week >= LAST_WEEK {
        (year + 1, 1)
    } else {
        (year, week + 1)
    }
}

/// Whether week `a` comes before week `b`.
pub open spec fn precedes(a: (int, int), b: (int, int)) -> bool {
    a.0 < b.0 || (a.0 == b.0 && a.1 < b.1)
}

/// Two weeks with the same label name are the same week.
pub proof fn lemma_label_name_injective(year_a: int, week_a: int, year_b: int, week_b: int)
    requires
        0 <= week_a,
        0 <= week_b,
        label_name(year_a, week_a) == label_name(year_b, week_b),
    ensures
        year_a == year_b,
        week_a == week_b,
{
    let head_a = name_prefix() + signed_decimal(year_a);
    let head_b = name_prefix() + signed_decimal(year_b);
    lemma_decimal_two_shape(week_a as nat);
    lemma_decimal_two_shape(week_b as nat);
    lemma_split_at_last_dash(
        head_a,
        decimal_two(week_a as nat),
        head_b,
        decimal_two(week_b as nat),
    );
    assert(signed_decimal(year_a) =~= head_a.subrange(5, head_a.len() as int));
    assert(signed_decimal(year_b) =~= head_b.subrange(5, head_b.len() as int));
    lemma_signed_decimal_injective(year_a, year_b);
}

/// Where a window stands after `steps` weeks: from the first step on the
/// week number lies in `1..=52`, and the year has advanced by no more than
/// one for the first rollover and one for every 52 weeks after it.
pub proof fn lemma_week_after_bounds(start: (int, int), steps: nat)
    requires
        0 <= start.1,
    ensures
        start.0 <= week_after(start, steps).0 <= start.0 + 1 + steps / 52,
        steps >= 1 ==> 1 <= week_after(start, steps).1 <= LAST_WEEK,
        steps >= 1 ==> 52 * (week_after(start, steps).0 - start.0 - 1) + week_after(
            start,
            steps,
        ).1 <= steps,
        0 <= week_after(start, steps).1,
    decreases steps,
{
    if steps >= 1 {
        lemma_week_after_bounds(start, (steps - 1) as nat);
    }
}

/// A window never comes back to a week: each of its weeks comes before all
/// later ones.
pub proof fn lemma_week_after_increases(start: (int, int), earlier: nat, later: nat)
    requires
        earlier < later,
    ensures
        precedes(week_after(start, earlier), week_after(start, later)),
    decreases later,
{
    if earlier + 1 < later {
        lemma_week_after_increases(start, earlier, (later - 1) as nat);
    }
}

/// Rollover: the week after week 52 of a window is week 1 of the next year,
/// and every other week below 52 is followed by the next week of its year.
pub proof fn lemma_window_rolls_over(start: (int, int), steps: nat)
    ensures
        week_after(start, steps).1 == LAST_WEEK ==> week_after(start, steps + 1) == (
            week_after(start, steps).0 + 1,
            1int,
        ),
        week_after(start, steps).1 < LAST_WEEK ==> week_after(start, steps + 1) == (
            week_after(start, steps).0,
            week_after(start, steps).1 + 1,
        ),
        labels_from(start, steps + 2)[steps as int] == label_of(
            week_after(start, steps).0,
            week_after(start, steps).1,
        ),
        labels_from(start, steps + 2)[steps as int + 1] == label_of(
            next_week(week_after(start, steps)).0,
            next_week(week_after(start, steps)).1,
        ),
{
}

/// A window of any length, from any week not below zero, holds no name
/// twice.
pub proof fn lemma_window_names_distinct(start: (int, int), count: nat)
    requires
        0 <= start.1,
    ensures
        distinct_names(labels_from(start, count)),
{
    let labels = labels_from(start, count);
    assert forall|i: int, j: int| 0 <= i < j < labels.len() implies (#[trigger] labels[i]).name != (
    #[trigger] labels[j]).name by {
        let a = week_after(start, i as nat);
        let b = week_after(start, j as nat);
        lemma_week_after_increases(start, i as nat, j as nat);
        lemma_week_after_bounds(start, i as nat);
        lemma_week_after_bounds(start, j as nat);
        if labels[i].name == labels[j].name {
            lemma_label_name_injective(a.0, a.1, b.0, b.1);
        }
    }
}

/// The labels of `weeks_ahead` successive weeks, the first of them week
/// `iso_week` of `iso_year`.
pub fn labels_from_week(iso_year: i32, iso_week: u32, weeks_ahead: u32) -> (labels: Vec<WeekLabel>)
    requires
        iso_year + weeks_ahead / 52 + 1 <= i32::MAX,
    ensures
        labels.len() == weeks_ahead,
        label_views(labels@) == labels_from((iso_year as int, iso_week as int), weeks_ahead as nat),
        distinct_names(label_views(labels@)),
        forall|i: int| 0 <= i < labels.len() ==> (#[trigger] labels[i]).wf(),
{
    let ghost start = (iso_year as int, iso_week as int);
    let mut labels: Vec<WeekLabel> = Vec::new();
    let mut year = iso_year;
    let mut week = iso_week;
    let mut i: u32 = 0;
    while i < weeks_ahead
        invariant
            i <= weeks_ahead,
            start == (iso_year as int, iso_week as int),
            iso_year + weeks_ahead / 52 + 1 <= i32::MAX,
            labels.len() == i,
            (year as int, week as int) == week_after(start, i as nat),
            forall|k: int|
                0 <= k < i ==> (#[trigger] labels[k])@ == label_of(
                    week_after(start, k as nat).0,
                    week_after(start, k as nat).1,
                ),
        decreases weeks_ahead - i,
    {
        labels.push(WeekLabel::new(year, week));
        proof {
            lemma_week_after_bounds(start, (i + 1) as nat);
            assert((i + 1) / 52 <= weeks_ahead / 52);
        }
        let next = next_iso_week(year, week);
        year = next.0;
        week = next.1;
        i += 1;
    }
    proof {
        assert(label_views(labels@) =~= labels_from(start, weeks_ahead as nat));
        lemma_window_names_distinct(start, weeks_ahead as nat);
    }
    labels
}

/// The labels of a rolling window of `weeks_ahead` weeks that starts with
/// the ISO week of `reference_date`; `None` if there is no such date.
pub fn generate_labels(reference_date: CalendarDate, weeks_ahead: u32) -> (generated: Option<
    Vec<WeekLabel>,
>)
    ensures
        generated is Some <==> is_calendar_date(
            reference_date.year as int,
            reference_date.month as int,
            reference_date.day as int,
        ),
        generated matches Some(labels) ==> {
            &&& labels.len() == weeks_ahead
            &&& label_views(labels@) == labels_from(
                iso_week_of(
                    reference_date.year as int,
                    reference_date.month as int,
                    reference_date.day as int,
                ),
                weeks_ahead as nat,
            )
            &&& distinct_names(label_views(labels@))
            &&& forall|i: int| 0 <= i < labels.len() ==> (#[trigger] labels[i]).wf()
        },
{
    match iso_week_of_date(reference_date.year, reference_date.month, reference_date.day) {
        Some(week) => Some(labels_from_week(week.0, week.1, weeks_ahead)),
        None => None,
    }
}

} // verus!
