//! The task list window: what it shows for the stored tasks.
use vstd::prelude::*;
use vstd::string::*;
use crate::storage::Task;
use crate::text::{decimal, decimal_digits, decimal_digits_denote, digits_value};

verus! {

/// The widget name that marks the main window, so that it is reused.
pub const MAIN_WINDOW_NAME: &'static str = "doo-main";

/// The empty state's icon, title and description.
pub const EMPTY_ICON_NAME: &'static str = "checkbox-checked-symbolic";

pub const EMPTY_TITLE: &'static str = "No tasks yet";

pub const EMPTY_DESCRIPTION: &'static str = "Press Super+T anywhere to capture one";

/// Whether the window shows its empty state rather than the list.
pub fn shows_empty_state(tasks: &Vec<Task>) -> (empty: bool)
    ensures
        empty == (tasks@.len() == 0),
{
    tasks.len() == 0
}

/// How an older task's local creation date is written (`strftime` style).
pub const LOCAL_DATE_FORMAT: &'static str = "%b %e, %H:%M";

pub const MINUTE: i64 = 60;

pub const HOUR: i64 = 3600;

pub const DAY: i64 = 86_400;

/// How a task's age is shown: under a minute "just now", under an hour
/// "<minutes>m ago", under a day "<hours>h ago", older than that its local
/// date. `age` is the number of seconds since its creation time `iso`, when
/// that time could be read; `local` is its local date, when it could be
/// written. The creation time itself stands in for whatever is missing.
pub open spec fn age_label(iso: Seq<char>, age: Option<int>, local: Option<Seq<char>>) -> Seq<char> {
    match age {
        None => iso,
        Some(secs) => if secs < MINUTE {
            "just now"@
        } else if secs < HOUR {
            decimal_digits((secs / (MINUTE as int)) as nat) + "m ago"@
        } else if secs < DAY {
            decimal_digits((secs / (HOUR as int)) as nat) + "h ago"@
        } else {
            match local {
                Some(date) => date,
                None => iso,
            }
        },
    }
}

/// For a task younger than a day, the label does not depend on the local
/// date: only older tasks show it.
pub proof fn age_under_a_day_ignores_local_date(
    iso: Seq<char>,
    secs: int,
    local: Option<Seq<char>>,
    other: Option<Seq<char>>,
)
    requires
        secs < DAY,
    ensures
        age_label(iso, Some(secs), local) == age_label(iso, Some(secs), other),
{
}

/// How an age is shown, whatever the local date: under a minute (or in the
/// future) "just now"; under an hour the whole minutes in decimal followed by
/// "m ago"; under a day the whole hours followed by "h ago"; from a day on
/// the local date, or the creation time itself when there is none.
pub proof fn age_label_counts_minutes_and_hours(iso: Seq<char>, secs: int, local: Option<Seq<char>>)
    ensures
        secs < 60 ==> age_label(iso, Some(secs), local) == "just now"@,
        60 <= secs < 3600 ==> exists|digits: Seq<char>|
            {
                &&& age_label(iso, Some(secs), local) == digits + "m ago"@
                &&& digits.len() > 0
                &&& digits_value(digits) == secs / 60
                &&& forall|k: int| 0 <= k < digits.len() ==> '0' <= #[trigger] digits[k] <= '9'
            },
        3600 <= secs < 86400 ==> exists|digits: Seq<char>|
            {
                &&& age_label(iso, Some(secs), local) == digits + "h ago"@
                &&& digits.len() > 0
                &&& digits_value(digits) == secs / 3600
                &&& forall|k: int| 0 <= k < digits.len() ==> '0' <= #[trigger] digits[k] <= '9'
            },
        86400 <= secs ==> age_label(iso, Some(secs), local) == match local {
            Some(date) => date,
            None => iso,
        },
        age_label(iso, None, local) == iso,
{
    if 60 <= secs < 3600 {
        decimal_digits_denote((secs / 60) as nat);
    }
    if 3600 <= secs < 86400 {
        decimal_digits_denote((secs / 3600) as nat);
    }
}

/// The subtitle of a task's row: how long ago it was created.
pub fn relative_label(iso: &str, age_seconds: Option<i64>, local_date: Option<String>) -> (label:
    String)
    ensures
        label@ == age_label(
            iso@,
            match age_seconds {
                Some(s) => Some(s as int),
                None => None,
            },
            match local_date {
                Some(d) => Some(d@),
                None => None,
            },
        ),
{
    match age_seconds {
        None => String::from_str(iso),
        Some(secs) => if secs < MINUTE {
            String::from_str("just now")
        } else if secs < HOUR {
            let minutes = secs / MINUTE;
            decimal(minutes as u64).concat("m ago")
        } else if secs < DAY {
            let hours = secs / HOUR;
            decimal(hours as u64).concat("h ago")
        } else {
            match local_date {
                Some(date) => date,
                None => String::from_str(iso),
            }
        },
    }
}

} // verus!
