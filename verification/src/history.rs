//! The history log: an ordered record of the last dispatches, newest first,
//! hard-capped at `MAX_HISTORY_ENTRIES` entries, and its human-readable
//! rendering. Also the timestamp: UTC year, month and day are computed from
//! the wall-clock epoch offset by a manual Gregorian calendar calculation,
//! with no timezone database.
//!
//! Loading and storing the log is the caller's business; the functions here
//! transform the log as a value.

use vstd::prelude::*;

verus! {

/// The most entries the history keeps; older ones are silently dropped.
pub const MAX_HISTORY_ENTRIES: usize = 10;

/// One history entry: when it happened, which event, which melody
/// reference, in which project directory, and optionally the tool name and
/// the matcher in effect.
pub struct HistoryEntry {
    pub timestamp: String,
    pub event: String,
    pub melody: String,
    pub project_dir: String,
    pub tool_name: Option<String>,
    pub matcher: Option<String>,
}

/// The mathematical image of a `HistoryEntry`.
pub struct HistoryEntryView {
    pub timestamp: Seq<char>,
    pub event: Seq<char>,
    pub melody: Seq<char>,
    pub project_dir: Seq<char>,
    pub tool_name: Option<Seq<char>>,
    pub matcher: Option<Seq<char>>,
}

impl View for HistoryEntry {
    type V = HistoryEntryView;

    open spec fn view(&self) -> HistoryEntryView {
        HistoryEntryView {
            timestamp: self.timestamp@,
            event: self.event@,
            melody: self.melody@,
            project_dir: self.project_dir@,
            tool_name: match self.tool_name {
                Some(ref t) => Some(t@),
                None => None,
            },
            matcher: match self.matcher {
                Some(ref m) => Some(m@),
                None => None,
            },
        }
    }
}

/// The history log: entries ordered newest first.
pub struct History {
    pub entries: Vec<HistoryEntry>,
}

impl View for History {
    type V = Seq<HistoryEntryView>;

    open spec fn view(&self) -> Seq<HistoryEntryView> {
        self.entries@.map_values(|e: HistoryEntry| e@)
    }
}

impl Default for History {
    /// The default history is empty.
    fn default() -> (r: History)
        ensures
            r@.len() == 0,
    {
        History { entries: Vec::new() }
    }
}

/// Put `entry` at the front of the history and drop everything past the
/// cap: afterwards the history holds the new entry first, then the old
/// entries in order, and no more than `MAX_HISTORY_ENTRIES` in all.
pub fn add_history_entry(history: &mut History, entry: HistoryEntry)
    ensures
        final(history)@.len() == if old(history)@.len() + 1 <= MAX_HISTORY_ENTRIES {
            old(history)@.len() + 1
        } else {
            MAX_HISTORY_ENTRIES as nat
        },
        final(history)@[0] == entry@,
        forall|i: int| 1 <= i < final(history)@.len() ==> final(history)@[i] == old(history)@[i
            - 1],
{
    history.entries.insert(0, entry);
    history.entries.truncate(MAX_HISTORY_ENTRIES);
}

/// Whether `year` is a Gregorian leap year: divisible by 4 and not by 100,
/// unless also divisible by 400.
pub open spec fn spec_is_leap(year: nat) -> bool {
    (year % 4 == 0 && year % 100 != 0) || year % 400 == 0
}

/// Whether `year` is a Gregorian leap year.
pub fn is_leap_year(year: u64) -> (r: bool)
    ensures
        r == spec_is_leap(year as nat),
{
    (year % 4 == 0 && year % 100 != 0) || year % 400 == 0
}

/// Days in `year`.
pub open spec fn days_in_year(year: nat) -> nat {
    if spec_is_leap(year) {
        366
    } else {
        365
    }
}

/// Starting from `year` with `days` whole days left, the year the last day
/// falls in and the day's index within that year.
pub open spec fn spec_civil(year: nat, days: nat) -> (nat, nat)
    decreases days,
{
    if days < days_in_year(year) {
        (year, days)
    } else {
        spec_civil(year + 1, (days - days_in_year(year)) as nat)
    }
}

/// The lengths of the twelve months.
pub open spec fn month_days(leap: bool) -> Seq<u32> {
    if leap {
        seq![31u32, 29, 31, 30, 31, 30, 31, 31, 30, 31, 30, 31]
    } else {
        seq![31u32, 28, 31, 30, 31, 30, 31, 31, 30, 31, 30, 31]
    }
}

/// Month and day (both 1-based) for day `doy` of a year, walking the months
/// from index `m` on; past the last month, the last day of the year.
pub open spec fn spec_md_from(doy: int, leap: bool, m: int) -> (int, int)
    decreases 12 - m,
{
    if m < 0 || m >= 12 {
        (12, 31)
    } else if doy < month_days(leap)[m] {
        (m + 1, doy + 1)
    } else {
        spec_md_from(doy - month_days(leap)[m], leap, m + 1)
    }
}

/// Month and day (both 1-based) for day `doy` (0-based) of a year.
pub open spec fn spec_month_day(doy: int, leap: bool) -> (int, int) {
    spec_md_from(doy, leap, 0)
}

/// Month and day (both 1-based) for day `day_of_year` (0-based) of a leap
/// or common year; (12, 31) when the index runs past the year's end.
pub fn days_to_month_day(day_of_year: u32, leap: bool) -> (r: (u32, u32))
    ensures
        spec_month_day(day_of_year as int, leap) == (r.0 as int, r.1 as int),
{
    let mut doy = day_of_year;
    let mut m: usize = 0;
    while m < 12
        invariant
            m <= 12,
            spec_month_day(day_of_year as int, leap) == spec_md_from(doy as int, leap, m as int),
        decreases 12 - m,
    {
        let days = month_length(m, leap);
        if doy < days {
            return (m as u32 + 1, doy + 1);
        }
        doy = doy - days;
        m = m + 1;
    }
    (12, 31)
}

/// The length of month index `m` (0-based).
fn month_length(m: usize, leap: bool) -> (r: u32)
    requires
        m < 12,
    ensures
        r == month_days(leap)[m as int],
{
    let common: u32 = if m == 0 {
        31
    } else if m == 1 {
        28
    } else if m == 2 {
        31
    } else if m == 3 {
        30
    } else if m == 4 {
        31
    } else if m == 5 {
        30
    } else if m == 6 {
        31
    } else if m == 7 {
        31
    } else if m == 8 {
        30
    } else if m == 9 {
        31
    } else if m == 10 {
        30
    } else {
        31
    };
    if leap && m == 1 {
        29
    } else {
        common
    }
}

/// The decimal digit character for `n` in 0..10.
pub open spec fn dec_digit(n: int) -> char {
    if n == 0 {
        '0'
    } else if n == 1 {
        '1'
    } else if n == 2 {
        '2'
    } else if n == 3 {
        '3'
    } else if n == 4 {
        '4'
    } else if n == 5 {
        '5'
    } else if n == 6 {
        '6'
    } else if n == 7 {
        '7'
    } else if n == 8 {
        '8'
    } else {
        '9'
    }
}

/// `n` written in decimal, without leading zeros (`0` for 0).
pub open spec fn spec_dec(n: nat) -> Seq<char>
    decreases n,
{
    if n < 10 {
        seq![dec_digit(n as int)]
    } else {
        spec_dec(n / 10) + seq![dec_digit((n % 10) as int)]
    }
}

/// `s` with `'0'` put in front until it is at least `w` long.
pub open spec fn zero_pad(s: Seq<char>, w: int) -> Seq<char>
    decreases w - s.len(),
{
    if s.len() >= w {
        s
    } else {
        zero_pad(seq!['0'] + s, w)
    }
}

/// `n` in decimal, zero-padded to at least `w` characters.
pub open spec fn spec_padded(n: nat, w: int) -> Seq<char> {
    zero_pad(spec_dec(n), w)
}

/// The one-character string for decimal digit `d`.
fn dec_digit_str(d: u64) -> (r: &'static str)
    requires
        d < 10,
    ensures
        r@ == seq![dec_digit(d as int)],
{
    let s: &'static str = match d {
        0 => "0",
        1 => "1",
        2 => "2",
        3 => "3",
        4 => "4",
        5 => "5",
        6 => "6",
        7 => "7",
        8 => "8",
        _ => "9",
    };
    proof {
        reveal_strlit("0");
        reveal_strlit("1");
        reveal_strlit("2");
        reveal_strlit("3");
        reveal_strlit("4");
        reveal_strlit("5");
        reveal_strlit("6");
        reveal_strlit("7");
        reveal_strlit("8");
        reveal_strlit("9");
        assert(s@ =~= seq![dec_digit(d as int)]);
    }
    s
}

/// `n` written in decimal.
pub fn u64_to_dec(n: u64) -> (r: String)
    ensures
        r@ == spec_dec(n as nat),
{
    let mut acc = String::new();
    let mut m = n;
    proof {
        assert(spec_dec(n as nat) + acc@ =~= spec_dec(n as nat));
    }
    loop
        invariant
            spec_dec(n as nat) == spec_dec(m as nat) + acc@,
        decreases m,
    {
        let ghost acc0 = acc@;
        let d = m % 10;
        let t = String::from_str(dec_digit_str(d));
        acc = t.concat(acc.as_str());
        if m < 10 {
            proof {
                assert(spec_dec(m as nat) =~= seq![dec_digit(d as int)]);
                assert(spec_dec(m as nat) + acc0 =~= acc@);
            }
            return acc;
        }
        proof {
            assert(spec_dec(m as nat) =~= spec_dec((m as nat) / 10) + seq![
                dec_digit(((m as nat) % 10) as int),
            ]);
            assert((spec_dec((m as nat) / 10) + seq![dec_digit(((m as nat) % 10) as int)]) + acc0
                =~= spec_dec((m as nat) / 10) + acc@);
            assert((m / 10) as nat == (m as nat) / 10);
        }
        m = m / 10;
    }
}

/// The timestamp for `secs` seconds after the epoch, rendered
/// `YYYY-MM-DDTHH:MM:SSZ` in UTC.
pub open spec fn spec_timestamp(secs: nat) -> Seq<char> {
    let days = secs / 86400;
    let tod = secs % 86400;
    let yd = spec_civil(1970, days);
    let md = spec_month_day(yd.1 as int, spec_is_leap(yd.0));
    spec_padded(yd.0, 4) + "-"@ + spec_padded(md.0 as nat, 2) + "-"@ + spec_padded(md.1 as nat, 2)
        + "T"@ + spec_padded(tod / 3600, 2) + ":"@ + spec_padded((tod % 3600) / 60, 2) + ":"@
        + spec_padded(tod % 60, 2) + "Z"@
}

/// The UTC timestamp for `secs` seconds after the epoch, as
/// `YYYY-MM-DDTHH:MM:SSZ`, from a manual Gregorian calendar calculation.
pub fn chrono_lite_timestamp(secs: u64) -> (r: String)
    ensures
        r@ == spec_timestamp(secs as nat),
{
    let days = secs / 86400;
    let tod = secs % 86400;
    let hours = tod / 3600;
    let minutes = (tod % 3600) / 60;
    let seconds = tod % 60;

    let mut year: u64 = 1970;
    let mut rem: u64 = days;
    loop
        invariant
            days <= u64::MAX as int / 86400,
            1970 <= year,
            rem <= days,
            year - 1970 <= days - rem,
            spec_civil(1970, days as nat) == spec_civil(year as nat, rem as nat),
        ensures
            spec_civil(1970, days as nat) == (year as nat, rem as nat),
            rem < days_in_year(year as nat),
        decreases rem,
    {
        let diy: u64 = if is_leap_year(year) {
            366
        } else {
            365
        };
        if rem < diy {
            break;
        }
        rem = rem - diy;
        year = year + 1;
    }
    let leap = is_leap_year(year);
    let (month, day) = days_to_month_day(rem as u32, leap);

    let mut out = u64_to_dec_padded(year, 4);
    let month_s = u64_to_dec_padded(month as u64, 2);
    let day_s = u64_to_dec_padded(day as u64, 2);
    let hours_s = u64_to_dec_padded(hours, 2);
    let minutes_s = u64_to_dec_padded(minutes, 2);
    let seconds_s = u64_to_dec_padded(seconds, 2);
    out.append("-");
    out.append(month_s.as_str());
    out.append("-");
    out.append(day_s.as_str());
    out.append("T");
    out.append(hours_s.as_str());
    out.append(":");
    out.append(minutes_s.as_str());
    out.append(":");
    out.append(seconds_s.as_str());
    out.append("Z");
    proof {
        assert(out@ =~= spec_timestamp(secs as nat));
    }
    out
}

/// The rendering of one history entry, numbered `i` (0-based).
pub open spec fn spec_format_entry(i: int, e: HistoryEntryView) -> Seq<char> {
    spec_dec((i + 1) as nat) + ". ["@ + e.timestamp + "] "@ + e.event + "\n"@ + "   Melody: "@
        + e.melody + "\n"@ + "   Project: "@ + e.project_dir + "\n"@ + (match e.tool_name {
        Some(t) => "   Tool: "@ + t + "\n"@,
        None => Seq::empty(),
    }) + (match e.matcher {
        Some(m) => "   Matcher: "@ + m + "\n"@,
        None => Seq::empty(),
    }) + "\n"@
}

/// The renderings of the first `i` entries, concatenated.
pub open spec fn spec_format_prefix(entries: Seq<HistoryEntryView>, i: int) -> Seq<char>
    decreases i,
{
    if i <= 0 {
        Seq::empty()
    } else {
        spec_format_prefix(entries, i - 1) + spec_format_entry(i - 1, entries[i - 1])
    }
}

/// The rendering of the whole history: a fixed message when empty, else a
/// header followed by each entry's rendering, newest first.
pub open spec fn spec_format_history(entries: Seq<HistoryEntryView>) -> Seq<char> {
    if entries.len() == 0 {
        "No melody history yet."@
    } else {
        "Recent melody history (last 10):\n\n"@ + spec_format_prefix(
            entries,
            entries.len() as int,
        )
    }
}

/// Render the history for display: a fixed message when it is empty, else a
/// header and one numbered block per entry, newest first.
pub fn format_history(history: &History) -> (r: String)
    ensures
        r@ == spec_format_history(history@),
{
    let n = history.entries.len();
    if n == 0 {
        return String::from_str("No melody history yet.");
    }
    let mut out = String::from_str("Recent melody history (last 10):\n\n");
    let ghost header = out@;
    proof {
        assert(header + spec_format_prefix(history@, 0) =~= header);
    }
    let mut i: usize = 0;
    while i < n
        invariant
            n == history.entries@.len(),
            n == history@.len(),
            i <= n,
            header == "Recent melody history (last 10):\n\n"@,
            out@ == header + spec_format_prefix(history@, i as int),
        decreases n - i,
    {
        let e = &history.entries[i];
        let block = format_entry(i, e);
        out.append(block.as_str());
        proof {
            assert(e@ == history@[i as int]);
            assert(header + spec_format_prefix(history@, i as int) + spec_format_entry(
                i as int,
                history@[i as int],
            ) =~= header + spec_format_prefix(history@, i as int + 1));
        }
        i += 1;
    }
    out
}

/// Render one history entry, numbered `idx` (0-based).
fn format_entry(idx: usize, e: &HistoryEntry) -> (r: String)
    requires
        idx < usize::MAX,
    ensures
        r@ == spec_format_entry(idx as int, e@),
{
    let mut out = u64_to_dec((idx + 1) as u64);
    out.append(". [");
    out.append(e.timestamp.as_str());
    out.append("] ");
    out.append(e.event.as_str());
    out.append("\n");
    out.append("   Melody: ");
    out.append(e.melody.as_str());
    out.append("\n");
    out.append("   Project: ");
    out.append(e.project_dir.as_str());
    out.append("\n");
    match &e.tool_name {
        Some(t) => {
            out.append("   Tool: ");
            out.append(t.as_str());
            out.append("\n");
        },
        None => {},
    }
    match &e.matcher {
        Some(m) => {
            out.append("   Matcher: ");
            out.append(m.as_str());
            out.append("\n");
        },
        None => {},
    }
    out.append("\n");
    proof {
        assert(out@ =~= spec_format_entry(idx as int, e@));
    }
    out
}

/// `n` in decimal, zero-padded to at least `w` characters.
pub fn u64_to_dec_padded(n: u64, w: usize) -> (r: String)
    ensures
        r@ == spec_padded(n as nat, w as int),
{
    let mut s = u64_to_dec(n);
    loop
        invariant
            spec_padded(n as nat, w as int) == zero_pad(s@, w as int),
        ensures
            s@.len() >= w,
            spec_padded(n as nat, w as int) == zero_pad(s@, w as int),
        decreases w - s@.len(),
    {
        let len = s.as_str().unicode_len();
        if len >= w {
            break;
        }
        let ghost s0 = s@;
        let t = String::from_str("0");
        proof {
            reveal_strlit("0");
            assert(t@ =~= seq!['0']);
        }
        s = t.concat(s.as_str());
        proof {
            assert(s@ =~= seq!['0'] + s0);
        }
    }
    s
}

} // verus!
