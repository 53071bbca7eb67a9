//! Business types of an event: category, visibility, recurrence and the data written
//! when an event is created or updated.

use crate::params::{QueryParam, QueryParamView, params_view};
use crate::time::{CalendarDate, Timestamp, MAX_EPOCH_DAY, MIN_EPOCH_DAY};
use vstd::prelude::*;
use vstd::string::*;

verus! {

/// Category of an event: `meeting`, `activity`, `ceremony` or `other` (the default).
#[derive(Clone, Copy, Debug, PartialEq, Eq, Structural)]
pub enum EventCategory {
    Meeting,
    Activity,
    Ceremony,
    Other,
}

impl EventCategory {
    /// The name stored in the database.
    pub open spec fn name(self) -> Seq<char> {
        match self {
            EventCategory::Meeting => "meeting"@,
            EventCategory::Activity => "activity"@,
            EventCategory::Ceremony => "ceremony"@,
            EventCategory::Other => "other"@,
        }
    }

    /// The category whose name is `text`; `None` for any other text.
    pub open spec fn named(text: Seq<char>) -> Option<EventCategory> {
        if text == "meeting"@ {
            Some(EventCategory::Meeting)
        } else if text == "activity"@ {
            Some(EventCategory::Activity)
        } else if text == "ceremony"@ {
            Some(EventCategory::Ceremony)
        } else if text == "other"@ {
            Some(EventCategory::Other)
        } else {
            None
        }
    }

    /// The name stored in the database.
    pub fn as_str(&self) -> (s: &'static str)
        ensures
            s@ == self.name(),
    {
        proof {
            reveal_strlit("meeting");
            reveal_strlit("activity");
            reveal_strlit("ceremony");
            reveal_strlit("other");
        }
        match self {
            EventCategory::Meeting => "meeting",
            EventCategory::Activity => "activity",
            EventCategory::Ceremony => "ceremony",
            EventCategory::Other => "other",
        }
    }

    /// The category named `text`, if any: the lowercase names that `as_str` writes.
    pub fn from_name(text: &str) -> (c: Option<EventCategory>)
        ensures
            c == EventCategory::named(text@),
    {
        if crate::text::same_text(text, "meeting") {
            Some(EventCategory::Meeting)
        } else if crate::text::same_text(text, "activity") {
            Some(EventCategory::Activity)
        } else if crate::text::same_text(text, "ceremony") {
            Some(EventCategory::Ceremony)
        } else if crate::text::same_text(text, "other") {
            Some(EventCategory::Other)
        } else {
            None
        }
    }
}

impl Default for EventCategory {
    fn default() -> (c: EventCategory)
        ensures
            c == EventCategory::Other,
    {
        EventCategory::Other
    }
}

/// Visibility of an event: `Public` (the default) or `Private`.
#[derive(Clone, Copy, Debug, PartialEq, Eq, Structural)]
pub enum EventVisibility {
    Public,
    Private,
}

impl EventVisibility {
    /// The value of the `event_visibility` database type.
    pub open spec fn db_name(self) -> Seq<char> {
        match self {
            EventVisibility::Public => "public"@,
            EventVisibility::Private => "private"@,
        }
    }

    /// The value of the `event_visibility` database type.
    pub fn as_db(&self) -> (s: &'static str)
        ensures
            s@ == self.db_name(),
    {
        proof {
            reveal_strlit("public");
            reveal_strlit("private");
        }
        match self {
            EventVisibility::Public => "public",
            EventVisibility::Private => "private",
        }
    }
}

impl Default for EventVisibility {
    fn default() -> (v: EventVisibility)
        ensures
            v == EventVisibility::Public,
    {
        EventVisibility::Public
    }
}

/// Unit of repetition of an event: `daily`, `weekly` or `monthly`.
#[derive(Clone, Copy, Debug, PartialEq, Eq, Structural)]
pub enum RecurrenceFrequency {
    Daily,
    Weekly,
    Monthly,
}

impl RecurrenceFrequency {
    /// The value of the `recurrence_type` database type.
    pub open spec fn name(self) -> Seq<char> {
        match self {
            RecurrenceFrequency::Daily => "daily"@,
            RecurrenceFrequency::Weekly => "weekly"@,
            RecurrenceFrequency::Monthly => "monthly"@,
        }
    }

    /// The value of the `recurrence_type` database type.
    pub fn as_str(&self) -> (s: &'static str)
        ensures
            s@ == self.name(),
    {
        proof {
            reveal_strlit("daily");
            reveal_strlit("weekly");
            reveal_strlit("monthly");
        }
        match self {
            RecurrenceFrequency::Daily => "daily",
            RecurrenceFrequency::Weekly => "weekly",
            RecurrenceFrequency::Monthly => "monthly",
        }
    }
}

/// Largest number of days, weeks or months between two repetitions.
pub const MAX_RECURRENCE_INTERVAL: u32 = 365;

/// The characters of an optional text.
pub open spec fn text_opt(o: Option<String>) -> Option<Seq<char>> {
    match o {
        Some(t) => Some(t@),
        None => None,
    }
}

/// An optional text, empty when absent (`unwrap_or_default`).
pub open spec fn text_or_empty(o: Option<Seq<char>>) -> Seq<char> {
    match o {
        Some(t) => t,
        None => Seq::empty(),
    }
}

/// A copy of an optional text.
pub fn copy_text(o: &Option<String>) -> (r: Option<String>)
    ensures
        text_opt(r) == text_opt(*o),
{
    match o {
        Some(t) => Some(t.clone()),
        None => None,
    }
}

/// An optional text, or an empty text when absent.
fn text_or_default(o: &Option<String>) -> (r: String)
    ensures
        r@ == text_or_empty(text_opt(*o)),
{
    match o {
        Some(t) => t.clone(),
        None => String::new(),
    }
}

/// Repetition rule of an event, stored in `recurrence_rules`.
#[derive(Debug)]
pub struct EventRecurrence {
    /// Unit of repetition, that `interval` multiplies.
    pub frequency: RecurrenceFrequency,
    /// Repeats every `interval` days, weeks or months (1 to 365).
    pub interval: u32,
    /// Days of a weekly repetition: 0 = Sunday ... 6 = Saturday.
    pub days_of_week: Option<Vec<u8>>,
    /// Last day (included) on which the event repeats; absent = no end.
    pub ends_on: Option<CalendarDate>,
}

/// A repetition rule, with its days as a sequence.
pub struct EventRecurrenceView {
    pub frequency: RecurrenceFrequency,
    pub interval: u32,
    pub days_of_week: Option<Seq<u8>>,
    pub ends_on: Option<CalendarDate>,
}

impl View for EventRecurrence {
    type V = EventRecurrenceView;

    open spec fn view(&self) -> EventRecurrenceView {
        EventRecurrenceView {
            frequency: self.frequency,
            interval: self.interval,
            days_of_week: match self.days_of_week {
                Some(d) => Some(d@),
                None => None,
            },
            ends_on: self.ends_on,
        }
    }
}

impl EventRecurrenceView {
    /// No weekday list, or a list of 1 to 7 distinct weekdays, each from 0 to 6.
    pub open spec fn days_valid(self) -> bool {
        match self.days_of_week {
            None => true,
            Some(days) => {
                &&& days.len() > 0
                &&& days.len() <= 7
                &&& forall|i: int| 0 <= i < days.len() ==> #[trigger] days[i] <= 6
                &&& days.no_duplicates()
            },
        }
    }

    /// The rule is consistent for an event that starts at `start`: an interval of 1 to 365,
    /// valid weekdays, and a last day, if any, no earlier than the day of `start`.
    pub open spec fn valid_for(self, start: Timestamp) -> bool {
        &&& 1 <= self.interval <= MAX_RECURRENCE_INTERVAL
        &&& self.days_valid()
        &&& match self.ends_on {
            None => true,
            Some(d) => d.day() >= start.epoch_day(),
        }
    }
}

/// Whether every weekday of `days` is at most 6 (Saturday).
fn all_weekdays(days: &Vec<u8>) -> (r: bool)
    ensures
        r == forall|i: int| 0 <= i < days@.len() ==> #[trigger] days@[i] <= 6,
{
    let n = days.len();
    let mut i: usize = 0;
    while i < n
        invariant
            n == days@.len(),
            i <= n,
            forall|k: int| 0 <= k < i ==> #[trigger] days@[k] <= 6,
        decreases n - i,
    {
        if days[i] > 6 {
            return false;
        }
        i = i + 1;
    }
    true
}

/// Whether no value occurs twice in `values`.
pub fn all_distinct(values: &Vec<u8>) -> (r: bool)
    ensures
        r == values@.no_duplicates(),
{
    let n = values.len();
    let mut i: usize = 0;
    while i < n
        invariant
            n == values@.len(),
            i <= n,
            forall|a: int, b: int| 0 <= a < i && a < b < n ==> values@[a] != values@[b],
        decreases n - i,
    {
        let mut j: usize = i + 1;
        while j < n
            invariant
                n == values@.len(),
                i < n,
                i < j <= n,
                forall|a: int, b: int| 0 <= a < i && a < b < n ==> values@[a] != values@[b],
                forall|b: int| i < b < j ==> values@[i as int] != values@[b],
            decreases n - j,
        {
            if values[i] == values[j] {
                return false;
            }
            j = j + 1;
        }
        i = i + 1;
    }
    true
}

impl EventRecurrence {
    /// Checks the rule for an event that starts at `start`.
    pub fn is_valid_for(&self, start: Timestamp) -> (r: bool)
        ensures
            r == self@.valid_for(start),
    {
        let days_valid = match &self.days_of_week {
            None => true,
            Some(days) => days.len() > 0 && days.len() <= 7 && all_weekdays(days) && all_distinct(
                days,
            ),
        };
        let interval_valid = 1 <= self.interval && self.interval <= MAX_RECURRENCE_INTERVAL;
        let ends_valid = match self.ends_on {
            None => true,
            Some(d) => d.epoch_days() as i64 >= start.day(),
        };
        interval_valid && days_valid && ends_valid
    }

    /// A copy of the rule.
    pub fn duplicate(&self) -> (r: EventRecurrence)
        ensures
            r@ == self@,
    {
        EventRecurrence {
            frequency: self.frequency,
            interval: self.interval,
            days_of_week: match &self.days_of_week {
                Some(d) => Some(d.clone()),
                None => None,
            },
            ends_on: self.ends_on,
        }
    }
}

impl Clone for EventRecurrence {
    fn clone(&self) -> (r: EventRecurrence)
        ensures
            r@ == self@,
    {
        self.duplicate()
    }
}

/// The views of an optional rule.
pub open spec fn recurrence_opt(o: Option<EventRecurrence>) -> Option<EventRecurrenceView> {
    match o {
        Some(r) => Some(r@),
        None => None,
    }
}

/// A copy of an optional rule.
pub fn copy_recurrence(o: &Option<EventRecurrence>) -> (r: Option<EventRecurrence>)
    ensures
        recurrence_opt(r) == recurrence_opt(*o),
{
    match o {
        Some(rule) => Some(rule.duplicate()),
        None => None,
    }
}

/// The ISO 8601 text (`%Y-%m-%d`) that `chrono` writes for the day `epoch_days`
/// days after 1970-01-01.
pub uninterp spec fn iso_date_text(epoch_days: int) -> Seq<char>;

/// Calls `chrono::NaiveDate::from_epoch_days` and formats the day with `"%Y-%m-%d"`.
/// Claimed: for a day that `NaiveDate` can hold, the text is `iso_date_text` of the day;
/// the text itself is left to `chrono`.
#[verifier::external_body]
fn iso_date(epoch_days: i32) -> (s: String)
    requires
        MIN_EPOCH_DAY <= epoch_days <= MAX_EPOCH_DAY,
    ensures
        s@ == iso_date_text(epoch_days as int),
{
    chrono::NaiveDate::from_epoch_days(epoch_days).unwrap().format("%Y-%m-%d").to_string()
}

/// Complete data of an event, as written to the database when it is created or updated.
#[derive(Debug)]
pub struct EventInput {
    pub name: String,
    pub description: Option<String>,
    pub start: Timestamp,
    pub end: Timestamp,
    pub visibility: EventVisibility,
    pub category: EventCategory,
    pub service: Option<String>,
    pub location: Option<String>,
    pub recurrence: Option<EventRecurrence>,
}

/// The data of an event, with its texts as characters.
pub struct EventInputView {
    pub name: Seq<char>,
    pub description: Option<Seq<char>>,
    pub start: Timestamp,
    pub end: Timestamp,
    pub visibility: EventVisibility,
    pub category: EventCategory,
    pub service: Option<Seq<char>>,
    pub location: Option<Seq<char>>,
    pub recurrence: Option<EventRecurrenceView>,
}

impl View for EventInput {
    type V = EventInputView;

    open spec fn view(&self) -> EventInputView {
        EventInputView {
            name: self.name@,
            description: text_opt(self.description),
            start: self.start,
            end: self.end,
            visibility: self.visibility,
            category: self.category,
            service: text_opt(self.service),
            location: text_opt(self.location),
            recurrence: recurrence_opt(self.recurrence),
        }
    }
}

impl EventInputView {
    /// Parameters `$2` to `$14` shared by the creation and the update queries.
    pub open spec fn query_params(self) -> Seq<QueryParamView> {
        seq![
            QueryParamView::Text(self.name),
            QueryParamView::Text(text_or_empty(self.description)),
            QueryParamView::DateTime(self.start),
            QueryParamView::DateTime(self.end),
            QueryParamView::Text(self.visibility.db_name()),
            QueryParamView::Text(self.category.name()),
            QueryParamView::Text(text_or_empty(self.service)),
            QueryParamView::Text(text_or_empty(self.location)),
            QueryParamView::Bool(self.recurrence is Some),
            QueryParamView::Text(
                match self.recurrence {
                    Some(r) => r.frequency.name(),
                    None => Seq::empty(),
                },
            ),
            QueryParamView::I32(
                match self.recurrence {
                    Some(r) => r.interval as i32,
                    None => 1i32,
                },
            ),
            QueryParamView::Text(
                match self.recurrence {
                    Some(r) => match r.days_of_week {
                        Some(days) => crate::text::comma_joined(days),
                        None => Seq::empty(),
                    },
                    None => Seq::empty(),
                },
            ),
            QueryParamView::Text(
                match self.recurrence {
                    Some(r) => match r.ends_on {
                        Some(d) => iso_date_text(d.day()),
                        None => Seq::empty(),
                    },
                    None => Seq::empty(),
                },
            ),
        ]
    }
}

impl EventInput {
    /// Parameters `$2` to `$14` shared by the creation and the update queries.
    pub fn query_params(&self) -> (params: Vec<QueryParam>)
        ensures
            params_view(params@) == self@.query_params(),
    {
        let recurrence = self.recurrence.as_ref();
        let frequency = match recurrence {
            Some(r) => String::from_str(r.frequency.as_str()),
            None => String::new(),
        };
        let interval: i32 = match recurrence {
            Some(r) => r.interval as i32,
            None => 1,
        };
        let days = match recurrence {
            Some(r) => match &r.days_of_week {
                Some(d) => crate::text::join_decimals(d),
                None => String::new(),
            },
            None => String::new(),
        };
        let ends_on = match recurrence {
            Some(r) => match r.ends_on {
                Some(d) => iso_date(d.epoch_days()),
                None => String::new(),
            },
            None => String::new(),
        };
        let mut params: Vec<QueryParam> = Vec::new();
        params.push(QueryParam::Text(self.name.clone()));
        params.push(QueryParam::Text(text_or_default(&self.description)));
        params.push(QueryParam::DateTime(self.start));
        params.push(QueryParam::DateTime(self.end));
        params.push(QueryParam::Text(String::from_str(self.visibility.as_db())));
        params.push(QueryParam::Text(String::from_str(self.category.as_str())));
        params.push(QueryParam::Text(text_or_default(&self.service)));
        params.push(QueryParam::Text(text_or_default(&self.location)));
        params.push(QueryParam::Bool(recurrence.is_some()));
        params.push(QueryParam::Text(frequency));
        params.push(QueryParam::I32(interval));
        params.push(QueryParam::Text(days));
        params.push(QueryParam::Text(ends_on));
        assert(params_view(params@) =~= self@.query_params());
        params
    }

    /// A copy of the data.
    pub fn duplicate(&self) -> (r: EventInput)
        ensures
            r@ == self@,
    {
        EventInput {
            name: self.name.clone(),
            description: copy_text(&self.description),
            start: self.start,
            end: self.end,
            visibility: self.visibility,
            category: self.category,
            service: copy_text(&self.service),
            location: copy_text(&self.location),
            recurrence: copy_recurrence(&self.recurrence),
        }
    }
}

impl Clone for EventInput {
    fn clone(&self) -> (r: EventInput)
        ensures
            r@ == self@,
    {
        self.duplicate()
    }
}

/// The parameters written for an event hold, in order, its name, description (empty when
/// absent), start, end, visibility, category, service and location (empty when absent), then
/// whether it repeats and, for a repeated event, its frequency, interval, weekdays and last
/// day.
pub proof fn lemma_written_params(e: EventInputView)
    ensures
        e.query_params().len() == 13,
        e.query_params()[0] == QueryParamView::Text(e.name),
        e.query_params()[1] == QueryParamView::Text(text_or_empty(e.description)),
        e.query_params()[2] == QueryParamView::DateTime(e.start),
        e.query_params()[3] == QueryParamView::DateTime(e.end),
        e.query_params()[4] == QueryParamView::Text(e.visibility.db_name()),
        e.query_params()[5] == QueryParamView::Text(e.category.name()),
        e.query_params()[6] == QueryParamView::Text(text_or_empty(e.service)),
        e.query_params()[7] == QueryParamView::Text(text_or_empty(e.location)),
        e.query_params()[8] == QueryParamView::Bool(e.recurrence is Some),
        forall|r: EventRecurrenceView|
            e.recurrence == Some(r) ==> {
                &&& e.query_params()[9] == QueryParamView::Text(r.frequency.name())
                &&& e.query_params()[10] == QueryParamView::I32(r.interval as i32)
            },
{
}

/// The names written for the categories, visibilities and frequencies are the lowercase
/// ones the database types hold, and no two values share a name.
pub proof fn lemma_stored_names(c1: EventCategory, c2: EventCategory, v1: EventVisibility, v2: EventVisibility)
    ensures
        EventCategory::Meeting.name() == "meeting"@,
        EventCategory::Activity.name() == "activity"@,
        EventCategory::Ceremony.name() == "ceremony"@,
        EventCategory::Other.name() == "other"@,
        EventVisibility::Public.db_name() == "public"@,
        EventVisibility::Private.db_name() == "private"@,
        RecurrenceFrequency::Daily.name() == "daily"@,
        RecurrenceFrequency::Weekly.name() == "weekly"@,
        RecurrenceFrequency::Monthly.name() == "monthly"@,
        c1.name() == c2.name() ==> c1 == c2,
        v1.db_name() == v2.db_name() ==> v1 == v2,
        EventCategory::named(c1.name()) == Some(c1),
{
    reveal_strlit("public");
    reveal_strlit("private");
    reveal_strlit("meeting");
    reveal_strlit("activity");
    reveal_strlit("ceremony");
    reveal_strlit("other");
    assert("public"@[1] != "private"@[1]);
    assert("meeting"@[0] != "activity"@[0]);
    assert("meeting"@[0] != "ceremony"@[0]);
    assert("meeting"@[0] != "other"@[0]);
    assert("activity"@[0] != "ceremony"@[0]);
    assert("activity"@[0] != "other"@[0]);
    assert("ceremony"@[0] != "other"@[0]);
}

} // verus!
