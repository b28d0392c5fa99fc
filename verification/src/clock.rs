//! The time of day, and how a photo is named after it.
use vstd::prelude::*;

use crate::text::{
    decimal, is_digit, law_decimal_reads_back, law_padded_reads_back, lemma_two_digits, padded,
    value,
};

verus! {

/// A date and a time of day in the zone of this machine.
#[derive(Debug, Clone, Copy, PartialEq, Eq, Structural)]
pub struct LocalTime {
    pub year: i32,
    pub month: u32,
    pub day: u32,
    pub hour: u32,
    pub minute: u32,
    pub second: u32,
}

/// The years that have a 29th of February.
pub open spec fn leap_year(year: int) -> bool {
    year % 4 == 0 && (year % 100 != 0 || year % 400 == 0)
}

/// The number of days of a month.
pub open spec fn days_in_month(year: int, month: int) -> int {
    if month == 2 {
        if leap_year(year) {
            29
        } else {
            28
        }
    } else if month == 4 || month == 6 || month == 9 || month == 11 {
        30
    } else {
        31
    }
}

impl LocalTime {
    /// The date is one of the calendar, and the time one of the day.
    pub open spec fn valid(self) -> bool {
        &&& -262143 <= self.year <= 262142
        &&& 1 <= self.month <= 12
        &&& 1 <= self.day <= days_in_month(self.year as int, self.month as int)
        &&& self.hour < 24
        &&& self.minute < 60
        &&& self.second < 60
    }
}

/// The times that are accepted are those of the calendar: every month has 28
/// days, all but February have 30, seven have 31, and a leap year has a 29th of
/// February. Every second of the day is accepted.
pub proof fn law_times_are_those_of_the_calendar(time: LocalTime)
    ensures
        time.valid() <==> {
            let leap = time.year % 400 == 0 || (time.year % 4 == 0 && time.year % 100 != 0);
            &&& -262143 <= time.year <= 262142
            &&& 1 <= time.month <= 12
            &&& {
                ||| 1 <= time.day <= 28
                ||| time.day == 29 && (time.month != 2 || leap)
                ||| time.day == 30 && time.month != 2
                ||| time.day == 31 && (time.month <= 7 && time.month % 2 == 1 || time.month >= 8
                    && time.month % 2 == 0)
            }
            &&& time.hour * 3600 + time.minute * 60 + time.second < 24 * 3600
            &&& time.minute < 60
            &&& time.second < 60
        },
{
}

/// A year in at least four digits, with a sign where four are not enough.
pub open spec fn year_text(year: int) -> Seq<char> {
    if year < 0 {
        seq!['-'] + padded((-year) as nat, 4)
    } else if year > 9999 {
        seq!['+'] + padded(year as nat, 4)
    } else {
        padded(year as nat, 4)
    }
}

/// The date and the time in digits, with an underscore between them.
pub open spec fn stamp(time: LocalTime) -> Seq<char> {
    year_text(time.year as int) + padded(time.month as nat, 2) + padded(time.day as nat, 2) + seq![
        '_',
    ] + padded(time.hour as nat, 2) + padded(time.minute as nat, 2) + padded(time.second as nat, 2)
}

/// The name of the file for a photo taken at the given time.
pub open spec fn photo_name(time: LocalTime) -> Seq<char> {
    "deskscope_"@ + stamp(time) + ".png"@
}

/// Reads the clock of this machine with `chrono::Local::now`, whose
/// `naive_local` gives the date and the time of day in the local zone. What it
/// reads is not known; it is a date of the calendar and a time of the day,
/// within the years that `chrono` can hold. `chrono` panics where the clock
/// stands before 1970 or beyond those years, and where the time zone of this
/// machine has an offset that it cannot hold.
#[verifier::external_body]
fn local_now() -> (time: LocalTime)
    ensures
        time.valid(),
{
    let now = chrono::Local::now().naive_local();
    LocalTime {
        year: chrono::Datelike::year(&now),
        month: chrono::Datelike::month(&now),
        day: chrono::Datelike::day(&now),
        hour: chrono::Timelike::hour(&now),
        minute: chrono::Timelike::minute(&now),
        second: chrono::Timelike::second(&now),
    }
}

/// Writes a time with `chrono::NaiveDateTime::format`. For the one pattern that
/// is admitted here the text is the year in at least four digits, with a sign
/// where it has more or lies before the year 0, then month and day in two
/// digits each, an underscore, and hour, minute and second in two digits each.
#[verifier::external_body]
fn format_time(time: &LocalTime, pattern: &str) -> (text: String)
    requires
        time.valid(),
        pattern@ == "%Y%m%d_%H%M%S"@,
    ensures
        text@ == stamp(*time),
{
    let date = chrono::NaiveDate::from_ymd_opt(time.year, time.month, time.day).unwrap();
    let moment = date.and_hms_opt(time.hour, time.minute, time.second).unwrap();
    moment.format(pattern).to_string()
}

/// Names the file for a photo taken at the given time.
pub fn photo_filename(time: &LocalTime) -> (name: String)
    requires
        time.valid(),
    ensures
        name@ == photo_name(*time),
{
    let text = format_time(time, "%Y%m%d_%H%M%S");
    let mut name = "deskscope_".to_owned();
    name.append(text.as_str());
    name.append(".png");
    name
}

/// The time is one that a reading of the clock of this machine gives. This is
/// known only of a time that such a reading has returned.
pub closed spec fn read_from_the_clock(time: LocalTime) -> bool {
    call_ensures(local_now, (), time)
}

/// What the clock of this machine gives is a date of the calendar and a time of
/// the day.
proof fn lemma_readings_are_valid(time: LocalTime)
    requires
        read_from_the_clock(time),
    ensures
        call_ensures(local_now, (), time),
        time.valid(),
{
}

/// Names the file for a photo taken at the time that the given clock shows.
fn photo_filename_by<F: Fn() -> LocalTime>(clock: F) -> (name: String)
    requires
        clock.requires(()),
        forall|time: LocalTime| #[trigger] clock.ensures((), time) ==> time.valid(),
    ensures
        exists|time: LocalTime| #[trigger]
            clock.ensures((), time) && name@ == photo_name(time),
{
    let time = clock();
    photo_filename(&time)
}

/// Names the file for a photo taken now: after a time that the clock gave, and
/// no other.
pub fn photo_filename_now() -> (name: String)
    ensures
        exists|time: LocalTime| #[trigger]
            read_from_the_clock(time) && time.valid() && name@ == photo_name(time),
{
    let name = photo_filename_by(local_now);
    proof {
        let time = choose|time: LocalTime| #[trigger]
            call_ensures(local_now, (), time) && name@ == photo_name(time);
        assert(read_from_the_clock(time));
    }
    name
}

/// A character that occurs in a date or a time.
spec fn is_stamp_char(c: char) -> bool {
    is_digit(c) || c == '_' || c == '+' || c == '-'
}

/// The text of a year has at most a sign before its digits, and tells the year.
proof fn lemma_year_text(year: int)
    ensures
        year_text(year).len() >= 4,
        0 <= year <= 9999 ==> year_text(year).len() == 4,
        year < 0 || year > 9999 ==> year_text(year).len() >= 5,
        forall|i: int|
            1 <= i < year_text(year).len() ==> is_digit(#[trigger] year_text(year)[i]),
        year_text(year).len() > 5 ==> year_text(year)[1] != '0',
        forall|i: int| 0 <= i < year_text(year).len() ==> is_stamp_char(#[trigger] year_text(year)[i]),
        year < 0 ==> year_text(year)[0] == '-' && year == -value(year_text(year).skip(1)),
        year > 9999 ==> year_text(year)[0] == '+' && year == value(year_text(year).skip(1)),
        0 <= year <= 9999 ==> is_digit(year_text(year)[0]) && year == value(year_text(year)),
{
    reveal_with_fuel(decimal, 5);
    if year < 0 {
        law_decimal_reads_back((-year) as nat);
        law_padded_reads_back((-year) as nat, 4);
        assert(year_text(year).skip(1) =~= padded((-year) as nat, 4));
    } else {
        law_decimal_reads_back(year as nat);
        law_padded_reads_back(year as nat, 4);
        if year > 9999 {
            assert(year_text(year).skip(1) =~= padded(year as nat, 4));
        }
    }
}

/// Where the parts of a stamp stand in it.
proof fn lemma_stamp_parts(time: LocalTime)
    requires
        time.valid(),
    ensures
        ({
            let text = stamp(time);
            let n = text.len() as int;
            &&& n >= 15
            &&& text.take(n - 11) == year_text(time.year as int)
            &&& value(text.subrange(n - 11, n - 9)) == time.month
            &&& value(text.subrange(n - 9, n - 7)) == time.day
            &&& text[n - 7] == '_'
            &&& value(text.subrange(n - 6, n - 4)) == time.hour
            &&& value(text.subrange(n - 4, n - 2)) == time.minute
            &&& value(text.subrange(n - 2, n)) == time.second
            &&& forall|i: int| 0 <= i < n ==> is_stamp_char(#[trigger] text[i])
            &&& forall|i: int| n - 11 <= i < n && i != n - 7 ==> is_digit(#[trigger] text[i])
        }),
{
    let text = stamp(time);
    let n = text.len() as int;
    let year = year_text(time.year as int);
    let month = padded(time.month as nat, 2);
    let day = padded(time.day as nat, 2);
    let hour = padded(time.hour as nat, 2);
    let minute = padded(time.minute as nat, 2);
    let second = padded(time.second as nat, 2);
    lemma_year_text(time.year as int);
    lemma_two_digits(time.month as nat);
    lemma_two_digits(time.day as nat);
    lemma_two_digits(time.hour as nat);
    lemma_two_digits(time.minute as nat);
    lemma_two_digits(time.second as nat);
    law_padded_reads_back(time.month as nat, 2);
    law_padded_reads_back(time.day as nat, 2);
    law_padded_reads_back(time.hour as nat, 2);
    law_padded_reads_back(time.minute as nat, 2);
    law_padded_reads_back(time.second as nat, 2);
    assert(n == year.len() + 11);
    assert(text.take(n - 11) =~= year);
    assert(text.subrange(n - 11, n - 9) =~= month);
    assert(text.subrange(n - 9, n - 7) =~= day);
    assert(text.subrange(n - 6, n - 4) =~= hour);
    assert(text.subrange(n - 4, n - 2) =~= minute);
    assert(text.subrange(n - 2, n) =~= second);
    assert forall|i: int| 0 <= i < n implies is_stamp_char(#[trigger] text[i]) && (n - 11 <= i && i
        != n - 7 ==> is_digit(text[i])) by {
        if i < n - 11 {
            assert(text[i] == year[i]);
        } else if i < n - 9 {
            assert(text[i] == month[i - (n - 11)]);
        } else if i < n - 7 {
            assert(text[i] == day[i - (n - 9)]);
        } else if i < n - 6 {
        } else if i < n - 4 {
            assert(text[i] == hour[i - (n - 6)]);
        } else if i < n - 2 {
            assert(text[i] == minute[i - (n - 4)]);
        } else {
            assert(text[i] == second[i - (n - 2)]);
        }
    }
}

/// Photos taken in different seconds go into files of different names.
pub proof fn law_photo_names_differ(a: LocalTime, b: LocalTime)
    requires
        a.valid(),
        b.valid(),
        photo_name(a) == photo_name(b),
    ensures
        a == b,
{
    let name = photo_name(a);
    let head = "deskscope_"@.len() as int;
    let tail = name.len() - ".png"@.len();
    assert(name.subrange(head, tail) =~= stamp(a));
    assert(photo_name(b).subrange(head, tail) =~= stamp(b));
    lemma_stamp_parts(a);
    lemma_stamp_parts(b);
    lemma_year_text(a.year as int);
    lemma_year_text(b.year as int);
}

/// Each photo has a file of its own: the names that the clock's readings give
/// differ if the readings differ in anything, down to the second.
pub proof fn law_readings_give_names_of_their_own(a: LocalTime, b: LocalTime)
    requires
        read_from_the_clock(a),
        read_from_the_clock(b),
        a != b,
    ensures
        photo_name(a) != photo_name(b),
{
    lemma_readings_are_valid(a);
    lemma_readings_are_valid(b);
    if photo_name(a) == photo_name(b) {
        law_photo_names_differ(a, b);
    }
}

/// The name of a photo tells when it was taken: month, day, hour, minute and
/// second stand in it with two digits each, before them the year.
pub proof fn law_photo_name_tells_the_time(time: LocalTime)
    requires
        time.valid(),
    ensures
        ({
            let name = photo_name(time);
            let n = name.len() as int;
            let year = name.subrange(10, n - 15);
            &&& n >= 29
            &&& name.take(10) == "deskscope_"@
            &&& name[n - 11] == '_'
            &&& name.skip(n - 4) == ".png"@
            &&& forall|i: int| n - 15 <= i < n - 4 && i != n - 11 ==> is_digit(#[trigger] name[i])
            &&& value(name.subrange(n - 15, n - 13)) == time.month
            &&& value(name.subrange(n - 13, n - 11)) == time.day
            &&& value(name.subrange(n - 10, n - 8)) == time.hour
            &&& value(name.subrange(n - 8, n - 6)) == time.minute
            &&& value(name.subrange(n - 6, n - 4)) == time.second
            &&& forall|i: int| 1 <= i < year.len() ==> is_digit(#[trigger] year[i])
            &&& 0 <= time.year <= 9999 ==> year.len() == 4 && is_digit(year[0]) && value(year)
                == time.year
            &&& time.year > 9999 ==> year[0] == '+' && value(year.skip(1)) == time.year
            &&& time.year < 0 ==> year[0] == '-' && value(year.skip(1)) == -time.year
            &&& time.year < 0 || time.year > 9999 ==> year.len() >= 5 && (year.len() > 5 ==> year[1]
                != '0')
        }),
{
    reveal_strlit("deskscope_");
    reveal_strlit(".png");
    let name = photo_name(time);
    let n = name.len() as int;
    let text = stamp(time);
    let m = text.len() as int;
    lemma_stamp_parts(time);
    lemma_year_text(time.year as int);
    assert(n == m + 14);
    assert(name.take(10) =~= "deskscope_"@);
    assert(name.skip(n - 4) =~= ".png"@);
    assert(name.subrange(10, n - 15) =~= text.take(m - 11));
    assert(name.subrange(n - 15, n - 13) =~= text.subrange(m - 11, m - 9));
    assert(name.subrange(n - 13, n - 11) =~= text.subrange(m - 9, m - 7));
    assert(name.subrange(n - 10, n - 8) =~= text.subrange(m - 6, m - 4));
    assert(name.subrange(n - 8, n - 6) =~= text.subrange(m - 4, m - 2));
    assert(name.subrange(n - 6, n - 4) =~= text.subrange(m - 2, m));
    assert forall|i: int| n - 15 <= i < n - 4 && i != n - 11 implies is_digit(
        #[trigger] name[i],
    ) by {
        assert(name[i] == text[i - 10]);
    }
    assert(name[n - 11] == text[m - 7]);
}

/// A photo goes right into the photo directory, as a PNG file: its name holds
/// no path separator and ends in `.png`.
pub proof fn law_photo_name_is_plain(time: LocalTime)
    requires
        time.valid(),
    ensures
        forall|i: int|
            0 <= i < photo_name(time).len() ==> (#[trigger] photo_name(time)[i]) != '/'
                && photo_name(time)[i] != '\\',
        photo_name(time).len() > 4,
        photo_name(time).skip(photo_name(time).len() - 4) == ".png"@,
{
    reveal_strlit("deskscope_");
    reveal_strlit(".png");
    lemma_stamp_parts(time);
    let name = photo_name(time);
    let text = stamp(time);
    assert forall|i: int| 0 <= i < name.len() implies (#[trigger] name[i]) != '/' && name[i]
        != '\\' by {
        if 10 <= i < 10 + text.len() {
            assert(name[i] == text[i - 10]);
        }
    }
    assert(name.skip(name.len() - 4) =~= ".png"@);
}

} // verus!
