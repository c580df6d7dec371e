//! Timezone resolution: the locale and time fields a real browser's
//! JavaScript runtime would report for an IANA zone. The zone database
//! and the clock are chrono's work behind a trusted boundary; everything
//! derived from the moment they give — the JavaScript-style offset sign,
//! the date and time texts, the Windows zone label — is verified.

use crate::textfmt::{dec_int, dec_nat, dec_pad2, i64_to_string, str_eq, u64_to_string,
    u64_to_string_pad2};
use vstd::prelude::*;

verus! {

/// Timezone-derived fields for the telemetry payload.
#[derive(Debug)]
pub struct Info {
    pub iana_name: String,
    /// The legacy Windows-style zone label.
    pub windows_zone: String,
    /// Minutes west of UTC, the sign convention of a browser's
    /// `getTimezoneOffset`.
    pub offset_minutes: i32,
    /// The fixed historical probe instant rendered in the target zone.
    pub resolved_epoch: i64,
    /// Kept equal to `resolved_epoch` on purpose.
    pub system_epoch: i64,
    /// The moment formatted as a browser's default date text.
    pub date_string: String,
    /// The moment formatted as `H:MM:SS AM/PM`.
    pub time_string: String,
    pub timestamp_millis: i64,
}

/// Resolving an unknown zone name fails with this.
#[derive(Clone, Copy, Debug, PartialEq, Eq, Structural)]
pub enum TzError {
    UnknownZone,
}

/// A moment read from the zone database and the clock, as plain values.
#[derive(Debug)]
pub struct Moment {
    /// Seconds east of UTC of the zone's current offset.
    pub offset_seconds: i32,
    pub year: i32,
    /// 1 through 12.
    pub month: u32,
    /// 1 through 31.
    pub day: u32,
    /// 0 through 23.
    pub hour: u32,
    /// 0 through 59.
    pub minute: u32,
    /// 0 through 59 (60 never appears; leap seconds are folded away).
    pub second: u32,
    /// Days since Monday: 0 through 6.
    pub weekday: u32,
    pub timestamp_millis: i64,
}

/// Whether the zone database recognizes a name. What chrono_tz's parser
/// accepts depends on the name alone.
pub uninterp spec fn known_zone(name: Seq<char>) -> bool;

/// The probe instant's millisecond timestamp in a zone: the fixed
/// historical date rendered in that zone, a pure function of the zone
/// database entry.
pub uninterp spec fn zone_probe_epoch(name: Seq<char>) -> i64;

/// Relies on chrono_tz's name parser and chrono's clock: a name parses
/// exactly when the zone database knows it; the fields of the moment are
/// in their calendar ranges; the UTC zone's offset is zero.
#[verifier::external_body]
fn zone_now(iana: &str) -> (r: Option<Moment>)
    ensures
        match r {
            Some(m) => {
                &&& known_zone(iana@)
                &&& 1 <= m.month <= 12
                &&& 1 <= m.day <= 31
                &&& m.hour < 24
                &&& m.minute < 60
                &&& m.second < 60
                &&& m.weekday < 7
                &&& -86400 < m.offset_seconds < 86400
                &&& (iana@ == "UTC"@ ==> m.offset_seconds == 0)
            },
            None => !known_zone(iana@),
        },
{
    let tz: chrono_tz::Tz = match iana.parse() {
        Ok(t) => t,
        Err(_) => return None,
    };
    let now = chrono::Local::now().with_timezone(&tz);
    let offset_seconds = chrono::Offset::fix(now.offset()).local_minus_utc();
    let (year, month, day) = (chrono::Datelike::year(&now), chrono::Datelike::month(&now), chrono::Datelike::day(&now));
    let (hour, minute, second) = (chrono::Timelike::hour(&now), chrono::Timelike::minute(&now), chrono::Timelike::second(&now));
    let weekday = chrono::Datelike::weekday(&now).num_days_from_monday();
    let timestamp_millis = now.timestamp_millis();
    Some(Moment { offset_seconds, year, month, day, hour, minute, second, weekday, timestamp_millis })
}

/// Relies on chrono_tz's calendar arithmetic: the probe instant's
/// timestamp in a zone depends on the zone database entry alone; an
/// ambiguous or missing local time reads as zero, deterministically.
#[verifier::external_body]
fn zone_epoch(iana: &str) -> (r: Option<i64>)
    ensures
        match r {
            Some(v) => known_zone(iana@) && v == zone_probe_epoch(iana@),
            None => !known_zone(iana@),
        },
{
    let tz: chrono_tz::Tz = match iana.parse() {
        Ok(t) => t,
        Err(_) => return None,
    };
    Some(chrono::TimeZone::with_ymd_and_hms(&tz, 1113, 7, 1, 0, 0, 0).single().map(
        |d| d.timestamp_millis(),
    ).unwrap_or(0))
}

/// The Windows-style display label for an IANA zone name: a fixed table
/// over common zones; an unmapped name passes through unchanged.
pub open spec fn windows_of(name: Seq<char>) -> Seq<char> {
    if name == "America/New_York"@ {
        "Eastern Standard Time"@
    } else if name == "America/Chicago"@ {
        "Central Standard Time"@
    } else if name == "America/Denver"@ {
        "Mountain Standard Time"@
    } else if name == "America/Los_Angeles"@ {
        "Pacific Standard Time"@
    } else if name == "America/Phoenix"@ {
        "US Mountain Standard Time"@
    } else if name == "America/Anchorage"@ {
        "Alaskan Standard Time"@
    } else if name == "Pacific/Honolulu"@ {
        "Hawaiian Standard Time"@
    } else if name == "America/Halifax"@ {
        "Atlantic Standard Time"@
    } else if name == "America/St_Johns"@ {
        "Newfoundland Standard Time"@
    } else if name == "America/Regina"@ {
        "Canada Central Standard Time"@
    } else if name == "America/Mexico_City"@ {
        "Central Standard Time (Mexico)"@
    } else if name == "America/Bogota"@ {
        "SA Pacific Standard Time"@
    } else if name == "America/Caracas"@ {
        "Venezuela Standard Time"@
    } else if name == "America/Santiago"@ {
        "Pacific SA Standard Time"@
    } else if name == "America/Argentina/Buenos_Aires"@ {
        "Argentina Standard Time"@
    } else if name == "America/Sao_Paulo"@ {
        "E. South America Standard Time"@
    } else if name == "America/Winnipeg"@ {
        "Central Standard Time"@
    } else if name == "America/Edmonton"@ {
        "Mountain Standard Time"@
    } else if name == "America/Vancouver"@ {
        "Pacific Standard Time"@
    } else if name == "America/Toronto"@ {
        "Eastern Standard Time"@
    } else if name == "Europe/London"@ {
        "GMT Standard Time"@
    } else if name == "Europe/Paris"@ {
        "Romance Standard Time"@
    } else if name == "Europe/Berlin"@ {
        "W. Europe Standard Time"@
    } else if name == "Europe/Rome"@ {
        "W. Europe Standard Time"@
    } else if name == "Europe/Madrid"@ {
        "Romance Standard Time"@
    } else if name == "Europe/Amsterdam"@ {
        "W. Europe Standard Time"@
    } else if name == "Europe/Brussels"@ {
        "Romance Standard Time"@
    } else if name == "Europe/Vienna"@ {
        "W. Europe Standard Time"@
    } else if name == "Europe/Zurich"@ {
        "W. Europe Standard Time"@
    } else if name == "Europe/Stockholm"@ {
        "W. Europe Standard Time"@
    } else if name == "Europe/Oslo"@ {
        "W. Europe Standard Time"@
    } else if name == "Europe/Copenhagen"@ {
        "Romance Standard Time"@
    } else if name == "Europe/Helsinki"@ {
        "FLE Standard Time"@
    } else if name == "Europe/Warsaw"@ {
        "Central European Standard Time"@
    } else if name == "Europe/Prague"@ {
        "Central Europe Standard Time"@
    } else if name == "Europe/Budapest"@ {
        "Central Europe Standard Time"@
    } else if name == "Europe/Bucharest"@ {
        "GTB Standard Time"@
    } else if name == "Europe/Athens"@ {
        "GTB Standard Time"@
    } else if name == "Europe/Istanbul"@ {
        "Turkey Standard Time"@
    } else if name == "Europe/Moscow"@ {
        "Russian Standard Time"@
    } else if name == "Europe/Kiev"@ {
        "FLE Standard Time"@
    } else if name == "Europe/Kyiv"@ {
        "FLE Standard Time"@
    } else if name == "Europe/Dublin"@ {
        "GMT Standard Time"@
    } else if name == "Europe/Lisbon"@ {
        "GMT Standard Time"@
    } else if name == "Asia/Tokyo"@ {
        "Tokyo Standard Time"@
    } else if name == "Asia/Shanghai"@ {
        "China Standard Time"@
    } else if name == "Asia/Hong_Kong"@ {
        "China Standard Time"@
    } else if name == "Asia/Taipei"@ {
        "Taipei Standard Time"@
    } else if name == "Asia/Seoul"@ {
        "Korea Standard Time"@
    } else if name == "Asia/Singapore"@ {
        "Singapore Standard Time"@
    } else if name == "Asia/Kolkata"@ {
        "India Standard Time"@
    } else if name == "Asia/Calcutta"@ {
        "India Standard Time"@
    } else if name == "Asia/Dubai"@ {
        "Arabian Standard Time"@
    } else if name == "Asia/Riyadh"@ {
        "Arab Standard Time"@
    } else if name == "Asia/Tehran"@ {
        "Iran Standard Time"@
    } else if name == "Asia/Baghdad"@ {
        "Arabic Standard Time"@
    } else if name == "Asia/Jerusalem"@ {
        "Israel Standard Time"@
    } else if name == "Asia/Bangkok"@ {
        "SE Asia Standard Time"@
    } else if name == "Asia/Jakarta"@ {
        "SE Asia Standard Time"@
    } else if name == "Asia/Kuala_Lumpur"@ {
        "Singapore Standard Time"@
    } else if name == "Asia/Manila"@ {
        "Singapore Standard Time"@
    } else if name == "Asia/Karachi"@ {
        "Pakistan Standard Time"@
    } else if name == "Asia/Dhaka"@ {
        "Bangladesh Standard Time"@
    } else if name == "Asia/Almaty"@ {
        "Central Asia Standard Time"@
    } else if name == "Asia/Vladivostok"@ {
        "Vladivostok Standard Time"@
    } else if name == "Asia/Novosibirsk"@ {
        "N. Central Asia Standard Time"@
    } else if name == "Australia/Sydney"@ {
        "AUS Eastern Standard Time"@
    } else if name == "Australia/Melbourne"@ {
        "AUS Eastern Standard Time"@
    } else if name == "Australia/Brisbane"@ {
        "E. Australia Standard Time"@
    } else if name == "Australia/Perth"@ {
        "W. Australia Standard Time"@
    } else if name == "Australia/Adelaide"@ {
        "Cen. Australia Standard Time"@
    } else if name == "Australia/Darwin"@ {
        "AUS Central Standard Time"@
    } else if name == "Pacific/Auckland"@ {
        "New Zealand Standard Time"@
    } else if name == "Pacific/Fiji"@ {
        "Fiji Standard Time"@
    } else if name == "Africa/Cairo"@ {
        "Egypt Standard Time"@
    } else if name == "Africa/Johannesburg"@ {
        "South Africa Standard Time"@
    } else if name == "Africa/Lagos"@ {
        "W. Central Africa Standard Time"@
    } else if name == "Africa/Nairobi"@ {
        "E. Africa Standard Time"@
    } else if name == "Africa/Casablanca"@ {
        "Morocco Standard Time"@
    } else if name == "UTC"@ {
        "UTC"@
    } else if name == "Etc/UTC"@ {
        "UTC"@
    } else if name == "Etc/GMT"@ {
        "GMT Standard Time"@
    } else {
        name
    }
}


proof fn lemma_windows_of_utc()
    ensures
        windows_of("UTC"@) == "UTC"@,
{
    reveal_strlit("America/New_York");
    reveal_strlit("America/Chicago");
    reveal_strlit("America/Denver");
    reveal_strlit("America/Los_Angeles");
    reveal_strlit("America/Phoenix");
    reveal_strlit("America/Anchorage");
    reveal_strlit("Pacific/Honolulu");
    reveal_strlit("America/Halifax");
    reveal_strlit("America/St_Johns");
    reveal_strlit("America/Regina");
    reveal_strlit("America/Mexico_City");
    reveal_strlit("America/Bogota");
    reveal_strlit("America/Caracas");
    reveal_strlit("America/Santiago");
    reveal_strlit("America/Argentina/Buenos_Aires");
    reveal_strlit("America/Sao_Paulo");
    reveal_strlit("America/Winnipeg");
    reveal_strlit("America/Edmonton");
    reveal_strlit("America/Vancouver");
    reveal_strlit("America/Toronto");
    reveal_strlit("Europe/London");
    reveal_strlit("Europe/Paris");
    reveal_strlit("Europe/Berlin");
    reveal_strlit("Europe/Rome");
    reveal_strlit("Europe/Madrid");
    reveal_strlit("Europe/Amsterdam");
    reveal_strlit("Europe/Brussels");
    reveal_strlit("Europe/Vienna");
    reveal_strlit("Europe/Zurich");
    reveal_strlit("Europe/Stockholm");
    reveal_strlit("Europe/Oslo");
    reveal_strlit("Europe/Copenhagen");
    reveal_strlit("Europe/Helsinki");
    reveal_strlit("Europe/Warsaw");
    reveal_strlit("Europe/Prague");
    reveal_strlit("Europe/Budapest");
    reveal_strlit("Europe/Bucharest");
    reveal_strlit("Europe/Athens");
    reveal_strlit("Europe/Istanbul");
    reveal_strlit("Europe/Moscow");
    reveal_strlit("Europe/Kiev");
    reveal_strlit("Europe/Kyiv");
    reveal_strlit("Europe/Dublin");
    reveal_strlit("Europe/Lisbon");
    reveal_strlit("Asia/Tokyo");
    reveal_strlit("Asia/Shanghai");
    reveal_strlit("Asia/Hong_Kong");
    reveal_strlit("Asia/Taipei");
    reveal_strlit("Asia/Seoul");
    reveal_strlit("Asia/Singapore");
    reveal_strlit("Asia/Kolkata");
    reveal_strlit("Asia/Calcutta");
    reveal_strlit("Asia/Dubai");
    reveal_strlit("Asia/Riyadh");
    reveal_strlit("Asia/Tehran");
    reveal_strlit("Asia/Baghdad");
    reveal_strlit("Asia/Jerusalem");
    reveal_strlit("Asia/Bangkok");
    reveal_strlit("Asia/Jakarta");
    reveal_strlit("Asia/Kuala_Lumpur");
    reveal_strlit("Asia/Manila");
    reveal_strlit("Asia/Karachi");
    reveal_strlit("Asia/Dhaka");
    reveal_strlit("Asia/Almaty");
    reveal_strlit("Asia/Vladivostok");
    reveal_strlit("Asia/Novosibirsk");
    reveal_strlit("Australia/Sydney");
    reveal_strlit("Australia/Melbourne");
    reveal_strlit("Australia/Brisbane");
    reveal_strlit("Australia/Perth");
    reveal_strlit("Australia/Adelaide");
    reveal_strlit("Australia/Darwin");
    reveal_strlit("Pacific/Auckland");
    reveal_strlit("Pacific/Fiji");
    reveal_strlit("Africa/Cairo");
    reveal_strlit("Africa/Johannesburg");
    reveal_strlit("Africa/Lagos");
    reveal_strlit("Africa/Nairobi");
    reveal_strlit("Africa/Casablanca");
    reveal_strlit("UTC");
    reveal_strlit("Etc/UTC");
    reveal_strlit("Etc/GMT");
}

/// Map an IANA timezone name to its Windows display label; unmapped
/// names pass through unchanged.
#[verifier::rlimit(100)]
pub fn iana_to_windows<'a>(iana: &'a str) -> (r: &'a str)
    ensures
        r@ == windows_of(iana@),
{
    if str_eq(iana, "America/New_York") {
        "Eastern Standard Time"
    } else if str_eq(iana, "America/Chicago") {
        "Central Standard Time"
    } else if str_eq(iana, "America/Denver") {
        "Mountain Standard Time"
    } else if str_eq(iana, "America/Los_Angeles") {
        "Pacific Standard Time"
    } else if str_eq(iana, "America/Phoenix") {
        "US Mountain Standard Time"
    } else if str_eq(iana, "America/Anchorage") {
        "Alaskan Standard Time"
    } else if str_eq(iana, "Pacific/Honolulu") {
        "Hawaiian Standard Time"
    } else if str_eq(iana, "America/Halifax") {
        "Atlantic Standard Time"
    } else if str_eq(iana, "America/St_Johns") {
        "Newfoundland Standard Time"
    } else if str_eq(iana, "America/Regina") {
        "Canada Central Standard Time"
    } else if str_eq(iana, "America/Mexico_City") {
        "Central Standard Time (Mexico)"
    } else if str_eq(iana, "America/Bogota") {
        "SA Pacific Standard Time"
    } else if str_eq(iana, "America/Caracas") {
        "Venezuela Standard Time"
    } else if str_eq(iana, "America/Santiago") {
        "Pacific SA Standard Time"
    } else if str_eq(iana, "America/Argentina/Buenos_Aires") {
        "Argentina Standard Time"
    } else if str_eq(iana, "America/Sao_Paulo") {
        "E. South America Standard Time"
    } else if str_eq(iana, "America/Winnipeg") {
        "Central Standard Time"
    } else if str_eq(iana, "America/Edmonton") {
        "Mountain Standard Time"
    } else if str_eq(iana, "America/Vancouver") {
        "Pacific Standard Time"
    } else if str_eq(iana, "America/Toronto") {
        "Eastern Standard Time"
    } else if str_eq(iana, "Europe/London") {
        "GMT Standard Time"
    } else if str_eq(iana, "Europe/Paris") {
        "Romance Standard Time"
    } else if str_eq(iana, "Europe/Berlin") {
        "W. Europe Standard Time"
    } else if str_eq(iana, "Europe/Rome") {
        "W. Europe Standard Time"
    } else if str_eq(iana, "Europe/Madrid") {
        "Romance Standard Time"
    } else if str_eq(iana, "Europe/Amsterdam") {
        "W. Europe Standard Time"
    } else if str_eq(iana, "Europe/Brussels") {
        "Romance Standard Time"
    } else if str_eq(iana, "Europe/Vienna") {
        "W. Europe Standard Time"
    } else if str_eq(iana, "Europe/Zurich") {
        "W. Europe Standard Time"
    } else if str_eq(iana, "Europe/Stockholm") {
        "W. Europe Standard Time"
    } else if str_eq(iana, "Europe/Oslo") {
        "W. Europe Standard Time"
    } else if str_eq(iana, "Europe/Copenhagen") {
        "Romance Standard Time"
    } else if str_eq(iana, "Europe/Helsinki") {
        "FLE Standard Time"
    } else if str_eq(iana, "Europe/Warsaw") {
        "Central European Standard Time"
    } else if str_eq(iana, "Europe/Prague") {
        "Central Europe Standard Time"
    } else if str_eq(iana, "Europe/Budapest") {
        "Central Europe Standard Time"
    } else if str_eq(iana, "Europe/Bucharest") {
        "GTB Standard Time"
    } else if str_eq(iana, "Europe/Athens") {
        "GTB Standard Time"
    } else if str_eq(iana, "Europe/Istanbul") {
        "Turkey Standard Time"
    } else if str_eq(iana, "Europe/Moscow") {
        "Russian Standard Time"
    } else if str_eq(iana, "Europe/Kiev") {
        "FLE Standard Time"
    } else if str_eq(iana, "Europe/Kyiv") {
        "FLE Standard Time"
    } else if str_eq(iana, "Europe/Dublin") {
        "GMT Standard Time"
    } else if str_eq(iana, "Europe/Lisbon") {
        "GMT Standard Time"
    } else if str_eq(iana, "Asia/Tokyo") {
        "Tokyo Standard Time"
    } else if str_eq(iana, "Asia/Shanghai") {
        "China Standard Time"
    } else if str_eq(iana, "Asia/Hong_Kong") {
        "China Standard Time"
    } else if str_eq(iana, "Asia/Taipei") {
        "Taipei Standard Time"
    } else if str_eq(iana, "Asia/Seoul") {
        "Korea Standard Time"
    } else if str_eq(iana, "Asia/Singapore") {
        "Singapore Standard Time"
    } else if str_eq(iana, "Asia/Kolkata") {
        "India Standard Time"
    } else if str_eq(iana, "Asia/Calcutta") {
        "India Standard Time"
    } else if str_eq(iana, "Asia/Dubai") {
        "Arabian Standard Time"
    } else if str_eq(iana, "Asia/Riyadh") {
        "Arab Standard Time"
    } else if str_eq(iana, "Asia/Tehran") {
        "Iran Standard Time"
    } else if str_eq(iana, "Asia/Baghdad") {
        "Arabic Standard Time"
    } else if str_eq(iana, "Asia/Jerusalem") {
        "Israel Standard Time"
    } else if str_eq(iana, "Asia/Bangkok") {
        "SE Asia Standard Time"
    } else if str_eq(iana, "Asia/Jakarta") {
        "SE Asia Standard Time"
    } else if str_eq(iana, "Asia/Kuala_Lumpur") {
        "Singapore Standard Time"
    } else if str_eq(iana, "Asia/Manila") {
        "Singapore Standard Time"
    } else if str_eq(iana, "Asia/Karachi") {
        "Pakistan Standard Time"
    } else if str_eq(iana, "Asia/Dhaka") {
        "Bangladesh Standard Time"
    } else if str_eq(iana, "Asia/Almaty") {
        "Central Asia Standard Time"
    } else if str_eq(iana, "Asia/Vladivostok") {
        "Vladivostok Standard Time"
    } else if str_eq(iana, "Asia/Novosibirsk") {
        "N. Central Asia Standard Time"
    } else if str_eq(iana, "Australia/Sydney") {
        "AUS Eastern Standard Time"
    } else if str_eq(iana, "Australia/Melbourne") {
        "AUS Eastern Standard Time"
    } else if str_eq(iana, "Australia/Brisbane") {
        "E. Australia Standard Time"
    } else if str_eq(iana, "Australia/Perth") {
        "W. Australia Standard Time"
    } else if str_eq(iana, "Australia/Adelaide") {
        "Cen. Australia Standard Time"
    } else if str_eq(iana, "Australia/Darwin") {
        "AUS Central Standard Time"
    } else if str_eq(iana, "Pacific/Auckland") {
        "New Zealand Standard Time"
    } else if str_eq(iana, "Pacific/Fiji") {
        "Fiji Standard Time"
    } else if str_eq(iana, "Africa/Cairo") {
        "Egypt Standard Time"
    } else if str_eq(iana, "Africa/Johannesburg") {
        "South Africa Standard Time"
    } else if str_eq(iana, "Africa/Lagos") {
        "W. Central Africa Standard Time"
    } else if str_eq(iana, "Africa/Nairobi") {
        "E. Africa Standard Time"
    } else if str_eq(iana, "Africa/Casablanca") {
        "Morocco Standard Time"
    } else if str_eq(iana, "UTC") {
        "UTC"
    } else if str_eq(iana, "Etc/UTC") {
        "UTC"
    } else if str_eq(iana, "Etc/GMT") {
        "GMT Standard Time"
    } else {
        iana
    }
}

/// The weekday's three-letter name, counting days from Monday.
pub open spec fn weekday_name(w: int) -> Seq<char> {
    if w == 0 {
        "Mon"@
    } else if w == 1 {
        "Tue"@
    } else if w == 2 {
        "Wed"@
    } else if w == 3 {
        "Thu"@
    } else if w == 4 {
        "Fri"@
    } else if w == 5 {
        "Sat"@
    } else {
        "Sun"@
    }
}

fn weekday_str(w: u32) -> (r: &'static str)
    ensures
        r@ == weekday_name(w as int),
{
    match w {
        0 => "Mon",
        1 => "Tue",
        2 => "Wed",
        3 => "Thu",
        4 => "Fri",
        5 => "Sat",
        _ => "Sun",
    }
}

/// The month's three-letter name for 1 through 12, `???` otherwise.
pub open spec fn month_name(m: int) -> Seq<char> {
    if m == 1 {
        "Jan"@
    } else if m == 2 {
        "Feb"@
    } else if m == 3 {
        "Mar"@
    } else if m == 4 {
        "Apr"@
    } else if m == 5 {
        "May"@
    } else if m == 6 {
        "Jun"@
    } else if m == 7 {
        "Jul"@
    } else if m == 8 {
        "Aug"@
    } else if m == 9 {
        "Sep"@
    } else if m == 10 {
        "Oct"@
    } else if m == 11 {
        "Nov"@
    } else if m == 12 {
        "Dec"@
    } else {
        "???"@
    }
}

fn month_str(m: u32) -> (r: &'static str)
    ensures
        r@ == month_name(m as int),
{
    match m {
        1 => "Jan",
        2 => "Feb",
        3 => "Mar",
        4 => "Apr",
        5 => "May",
        6 => "Jun",
        7 => "Jul",
        8 => "Aug",
        9 => "Sep",
        10 => "Oct",
        11 => "Nov",
        12 => "Dec",
        _ => "???",
    }
}

/// A browser's default date text for a moment: weekday, month, padded
/// day, year, padded clock, the GMT offset with sign and padded hours
/// and minutes, and the zone label in parentheses.
pub open spec fn spec_js_date(m: Moment, windows_zone: Seq<char>) -> Seq<char> {
    let sign: Seq<char> = if m.offset_seconds >= 0 {
        "+"@
    } else {
        "-"@
    };
    let abs_off: int = if m.offset_seconds >= 0 {
        m.offset_seconds as int
    } else {
        -(m.offset_seconds as int)
    };
    weekday_name(m.weekday as int) + " "@ + month_name(m.month as int) + " "@ + dec_pad2(
        m.day as int,
    ) + " "@ + dec_int(m.year as int) + " "@ + dec_pad2(m.hour as int) + ":"@ + dec_pad2(
        m.minute as int,
    ) + ":"@ + dec_pad2(m.second as int) + " GMT"@ + sign + dec_pad2(abs_off / 3600) + dec_pad2(
        (abs_off % 3600) / 60,
    ) + " ("@ + windows_zone + ")"@
}

/// Format a moment like a browser's default date text.
#[verifier::rlimit(30)]
pub fn format_js_date(m: &Moment, windows_zone: &str) -> (r: String)
    requires
        -86400 < m.offset_seconds < 86400,
    ensures
        r@ == spec_js_date(*m, windows_zone@),
{
    let sign = if m.offset_seconds >= 0 {
        "+"
    } else {
        "-"
    };
    let abs_off: u32 = if m.offset_seconds >= 0 {
        m.offset_seconds as u32
    } else {
        (-(m.offset_seconds as i64)) as u32
    };
    let hours: u32 = abs_off / 3600;
    let minutes: u32 = (abs_off % 3600) / 60;

    let mut s = weekday_str(m.weekday).to_owned();
    s.append(" ");
    s.append(month_str(m.month));
    s.append(" ");
    s.append(u64_to_string_pad2(m.day as u64).as_str());
    s.append(" ");
    s.append(i64_to_string(m.year as i64).as_str());
    s.append(" ");
    s.append(u64_to_string_pad2(m.hour as u64).as_str());
    s.append(":");
    s.append(u64_to_string_pad2(m.minute as u64).as_str());
    s.append(":");
    s.append(u64_to_string_pad2(m.second as u64).as_str());
    s.append(" GMT");
    s.append(sign);
    s.append(u64_to_string_pad2(hours as u64).as_str());
    s.append(u64_to_string_pad2(minutes as u64).as_str());
    s.append(" (");
    s.append(windows_zone);
    s.append(")");
    proof {
        assert(s@ =~= spec_js_date(*m, windows_zone@));
    }
    s
}

/// The clock rendered for people: a 12-hour clock hour, padded minutes
/// and seconds, and AM or PM.
pub open spec fn spec_js_time(m: Moment) -> Seq<char> {
    let period: Seq<char> = if m.hour >= 12 {
        "PM"@
    } else {
        "AM"@
    };
    let display: int = if m.hour > 12 {
        m.hour - 12
    } else if m.hour == 0 {
        12
    } else {
        m.hour as int
    };
    dec_nat(display) + ":"@ + dec_pad2(m.minute as int) + ":"@ + dec_pad2(m.second as int) + " "@
        + period
}

/// Format a moment's clock like `12:56:04 PM`.
pub fn format_js_time(m: &Moment) -> (r: String)
    requires
        m.hour < 24,
    ensures
        r@ == spec_js_time(*m),
{
    let period = if m.hour >= 12 {
        "PM"
    } else {
        "AM"
    };
    let display: u32 = if m.hour > 12 {
        m.hour - 12
    } else if m.hour == 0 {
        12
    } else {
        m.hour
    };
    let mut s = u64_to_string(display as u64);
    s.append(":");
    s.append(u64_to_string_pad2(m.minute as u64).as_str());
    s.append(":");
    s.append(u64_to_string_pad2(m.second as u64).as_str());
    s.append(" ");
    s.append(period);
    proof {
        assert(s@ =~= spec_js_time(*m));
    }
    s
}

/// The browser-convention offset for a zone offset in seconds: minutes
/// west of UTC, positive behind UTC, the magnitude rounded down.
pub open spec fn spec_js_offset(offset_seconds: int) -> int {
    if offset_seconds >= 0 {
        -(offset_seconds / 60)
    } else {
        (-offset_seconds) / 60
    }
}

/// Assemble the timezone record for a moment: the JavaScript-sign
/// offset, the two probe epochs (equal on purpose), the Windows label
/// and the formatted texts.
pub fn info_from_moment(iana_name: &str, m: &Moment, epoch: i64) -> (r: Info)
    requires
        -86400 < m.offset_seconds < 86400,
        m.hour < 24,
    ensures
        r.iana_name@ == iana_name@,
        r.windows_zone@ == windows_of(iana_name@),
        r.offset_minutes == spec_js_offset(m.offset_seconds as int),
        r.resolved_epoch == epoch,
        r.system_epoch == epoch,
        r.date_string@ == spec_js_date(*m, windows_of(iana_name@)),
        r.time_string@ == spec_js_time(*m),
        r.timestamp_millis == m.timestamp_millis,
{
    let offset_minutes: i32 = if m.offset_seconds >= 0 {
        -((m.offset_seconds as u32 / 60) as i32)
    } else {
        (((-(m.offset_seconds as i64)) as u32) / 60) as i32
    };
    let windows_zone = iana_to_windows(iana_name);
    Info {
        iana_name: iana_name.to_owned(),
        windows_zone: windows_zone.to_owned(),
        offset_minutes,
        resolved_epoch: epoch,
        system_epoch: epoch,
        date_string: format_js_date(m, windows_zone),
        time_string: format_js_time(m),
        timestamp_millis: m.timestamp_millis,
    }
}

/// Resolve all timezone-derived values for an IANA zone name. Succeeds
/// exactly for the names the zone database knows. Both probe epochs are
/// the same fixed instant; the UTC zone always resolves with offset
/// zero and the label `UTC`.
pub fn resolve(iana_name: &str) -> (r: Result<Info, TzError>)
    ensures
        r is Ok <==> known_zone(iana_name@),
        match r {
            Ok(info) => {
                &&& info.iana_name@ == iana_name@
                &&& info.windows_zone@ == windows_of(iana_name@)
                &&& info.resolved_epoch == info.system_epoch
                &&& info.resolved_epoch == zone_probe_epoch(iana_name@)
                &&& -1440 <= info.offset_minutes <= 1440
                &&& (iana_name@ == "UTC"@ ==> info.offset_minutes == 0 && info.windows_zone@
                    == "UTC"@)
            },
            Err(e) => e is UnknownZone,
        },
{
    let m = match zone_now(iana_name) {
        Some(m) => m,
        None => {
            return Err(TzError::UnknownZone);
        },
    };
    let epoch = match zone_epoch(iana_name) {
        Some(v) => v,
        None => {
            return Err(TzError::UnknownZone);
        },
    };
    let info = info_from_moment(iana_name, &m, epoch);
    proof {
        if iana_name@ == "UTC"@ {
            lemma_windows_of_utc();
        }
    }
    Ok(info)
}

/// What the timezone-by-IP lookup body yields: the `timezone` string
/// field of the JSON object, when it is present and not empty.
pub open spec fn spec_lookup_tz(body: Seq<char>) -> Option<Seq<char>> {
    match crate::json::json_of(body) {
        Some(node) => match crate::json::spec_field(node, "timezone"@) {
            Some(crate::json::JsonValue::Str(s)) => if s@.len() > 0 {
                Some(s@)
            } else {
                None
            },
            _ => None,
        },
        None => None,
    }
}

/// Read the IANA zone name out of a timezone-by-IP lookup body. An
/// invalid body, a missing field or an empty name all read as a failed
/// lookup; the caller falls back to UTC.
pub fn timezone_from_lookup_body(body: &str) -> (r: Option<String>)
    ensures
        match r {
            Some(name) => spec_lookup_tz(body@) == Some(name@),
            None => spec_lookup_tz(body@) is None,
        },
{
    match crate::json::parse_json(body) {
        Some(node) => match crate::json::get_field(&node, "timezone") {
            Some(crate::json::JsonValue::Str(s)) => {
                if s.as_str().unicode_len() > 0 {
                    Some(s.clone())
                } else {
                    None
                }
            },
            _ => None,
        },
        None => None,
    }
}

} // verus!
