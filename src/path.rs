use vstd::prelude::*;

use crate::error::{io_error_maker, ErrorKind, JobError};

verus! {

/// The directory part of a path, as `std::path::Path::parent` computes it.
pub uninterp spec fn parent_of(path: Seq<char>) -> Option<Seq<char>>;

/// The base name of a path without its extension, as `std::path::Path::file_stem` computes it.
pub uninterp spec fn stem_of(path: Seq<char>) -> Option<Seq<char>>;

/// The path `name` placed under `dir`, as `std::path::Path::join` computes it.
pub uninterp spec fn joined_path(dir: Seq<char>, name: Seq<char>) -> Seq<char>;

pub open spec fn opt_view(o: Option<String>) -> Option<Seq<char>> {
    match o {
        Some(s) => Some(s@),
        None => None,
    }
}

/// Relies on `std::path::Path::parent`: the path without its final component, or
/// `None` for a root or an empty path. The result depends on the text alone.
#[verifier::external_body]
fn path_parent(path: &str) -> (r: Option<String>)
    ensures
        opt_view(r) == parent_of(path@),
        path@.len() == 0 ==> r is None,
{
    match std::path::Path::new(path).parent() {
        Some(p) => Some(p.to_string_lossy().into_owned()),
        None => None,
    }
}

/// Relies on `std::path::Path::file_stem`: the final component without its
/// extension, or `None` where there is no file name (an empty path has none).
#[verifier::external_body]
fn path_file_stem(path: &str) -> (r: Option<String>)
    ensures
        opt_view(r) == stem_of(path@),
        path@.len() == 0 ==> r is None,
{
    match std::path::Path::new(path).file_stem() {
        Some(s) => Some(s.to_string_lossy().into_owned()),
        None => None,
    }
}

/// Relies on `std::path::Path::join`, displayed as text: `name` appended to `dir`
/// with a separator where one is needed.
#[verifier::external_body]
fn path_join(dir: &str, name: &str) -> (r: String)
    ensures
        r@ == joined_path(dir@, name@),
{
    std::path::Path::new(dir).join(name).display().to_string()
}

/// A calendar date and time of day, in the local time zone, to the second.
#[derive(Clone, Copy, Debug)]
pub struct ClockTime {
    pub year: i32,
    pub month: u32,
    pub day: u32,
    pub hour: u32,
    pub minute: u32,
    pub second: u32,
}

impl ClockTime {
    /// Month, day and time of day lie in their calendar ranges.
    pub open spec fn in_range(&self) -> bool {
        1 <= self.month <= 12 && 1 <= self.day <= 31 && self.hour < 24 && self.minute < 60
            && self.second < 60
    }

    /// In range, with a year that four digits can write.
    pub open spec fn valid(&self) -> bool {
        self.in_range() && 0 <= self.year <= 9999
    }
}

/// Relies on `SystemTime::now` and `duration_since(UNIX_EPOCH)`, on
/// `chrono::DateTime::from_timestamp` (whole seconds, so never a leap second),
/// on `DateTime::with_timezone(&chrono::Local)` (whole-second offsets) and on
/// the `Datelike` / `Timelike` accessors: the local date and time now, or
/// `None` where the clock reads before 1970 or beyond chrono's range. Unlike
/// `chrono::Local::now`, this does not panic on a clock set before 1970.
#[verifier::external_body]
fn local_now() -> (r: Option<ClockTime>)
    ensures
        r matches Some(t) ==> t.in_range(),
{
    let since = std::time::SystemTime::now().duration_since(std::time::UNIX_EPOCH).ok()?;
    let utc = chrono::DateTime::from_timestamp(i64::try_from(since.as_secs()).ok()?, 0)?;
    let t = utc.with_timezone(&chrono::Local).naive_local();
    Some(ClockTime {
        year: chrono::Datelike::year(&t),
        month: chrono::Datelike::month(&t),
        day: chrono::Datelike::day(&t),
        hour: chrono::Timelike::hour(&t),
        minute: chrono::Timelike::minute(&t),
        second: chrono::Timelike::second(&t),
    })
}

/// A clock reading that a stamp can be written from.
pub open spec fn usable(now: Option<ClockTime>) -> bool {
    now matches Some(t) && t.valid()
}

/// The decimal digit `d`.
pub open spec fn digit(d: int) -> char {
    seq!['0', '1', '2', '3', '4', '5', '6', '7', '8', '9'][d]
}

pub open spec fn is_digit(c: char) -> bool {
    '0' <= c <= '9'
}

/// `n` in two digits, zero-padded.
pub open spec fn two_digits(n: int) -> Seq<char> {
    seq![digit(n / 10), digit(n % 10)]
}

/// `n` in four digits, zero-padded.
pub open spec fn four_digits(n: int) -> Seq<char> {
    seq![digit(n / 1000), digit(n / 100 % 10), digit(n / 10 % 10), digit(n % 10)]
}

/// The stamp `YYYYMMDD_HHMMSS` of a time.
pub open spec fn stamp_text(t: ClockTime) -> Seq<char> {
    four_digits(t.year as int) + two_digits(t.month as int) + two_digits(t.day as int) + seq!['_']
        + two_digits(t.hour as int) + two_digits(t.minute as int) + two_digits(t.second as int)
}

/// Eight digits, an underscore, six digits.
pub open spec fn stamp_shape(s: Seq<char>) -> bool {
    s.len() == 15 && s[8] == '_' && forall|i: int| 0 <= i < 15 && i != 8 ==> is_digit(#[trigger] s[i])
}

/// The stamp of a valid time is eight digits, an underscore and six digits.
pub proof fn lemma_stamp_shape(t: ClockTime)
    requires
        t.valid(),
    ensures
        stamp_shape(stamp_text(t)),
{
    let s = stamp_text(t);
    assert forall|i: int| 0 <= i < 15 && i != 8 implies is_digit(#[trigger] s[i]) by {
        assert forall|d: int| 0 <= d < 10 implies is_digit(#[trigger] digit(d)) by {
            let ds = seq!['0', '1', '2', '3', '4', '5', '6', '7', '8', '9'];
            assert(ds[0] == '0' && ds[1] == '1' && ds[2] == '2' && ds[3] == '3' && ds[4] == '4');
            assert(ds[5] == '5' && ds[6] == '6' && ds[7] == '7' && ds[8] == '8' && ds[9] == '9');
        }
    }
}

/// Appends the decimal digit `d`.
fn push_digit(s: &mut String, d: u32)
    requires
        d < 10,
    ensures
        final(s)@ == old(s)@.push(digit(d as int)),
{
    let digits = "0123456789";
    proof {
        reveal_strlit("0123456789");
        assert(digits@ =~= seq!['0', '1', '2', '3', '4', '5', '6', '7', '8', '9']);
    }
    let one = digits.substring_char(d as usize, d as usize + 1);
    assert(one@ =~= seq![digit(d as int)]);
    s.append(one);
}

fn push_two_digits(s: &mut String, n: u32)
    requires
        n < 100,
    ensures
        final(s)@ == old(s)@ + two_digits(n as int),
{
    push_digit(s, n / 10);
    push_digit(s, n % 10);
    assert(final(s)@ =~= old(s)@ + two_digits(n as int));
}

/// Writes the stamp `YYYYMMDD_HHMMSS` of `t`.
pub fn format_stamp(t: &ClockTime) -> (r: String)
    requires
        t.valid(),
    ensures
        r@ == stamp_text(*t),
        stamp_shape(r@),
{
    let y = t.year as u32;
    let mut r = String::new();
    push_digit(&mut r, y / 1000);
    push_digit(&mut r, y / 100 % 10);
    push_two_digits(&mut r, y % 100);
    push_two_digits(&mut r, t.month);
    push_two_digits(&mut r, t.day);
    let ghost date = r@;
    r.append("_");
    proof {
        reveal_strlit("_");
        assert(r@ =~= date + seq!['_']);
    }
    push_two_digits(&mut r, t.hour);
    push_two_digits(&mut r, t.minute);
    push_two_digits(&mut r, t.second);
    proof {
        assert(two_digits((y % 100) as int) =~= seq![digit(y as int / 10 % 10), digit(y as int % 10)]);
        assert(r@ =~= stamp_text(*t));
        lemma_stamp_shape(*t);
    }
    r
}

/// The directory that holds the file at `file_path`, if the path has one.
pub fn file_parent_dir(file_path: &str) -> (r: Option<String>)
    ensures
        opt_view(r) == parent_of(file_path@),
{
    path_parent(file_path)
}

/// The base name of `file_path` without its extension, if the path has one.
pub fn file_stem(file_path: &str) -> (r: Option<String>)
    ensures
        opt_view(r) == stem_of(file_path@),
{
    path_file_stem(file_path)
}

/// `<prefix>_<stamp>.<format>`.
pub open spec fn stamped_name(prefix: Seq<char>, format: Seq<char>, stamp: Seq<char>) -> Seq<char> {
    prefix + "_"@ + stamp + "."@ + format
}

/// The stem that an output file takes after an input at `path`.
pub open spec fn output_stem(path: Seq<char>) -> Seq<char> {
    match stem_of(path) {
        Some(s) => s,
        None => "output"@,
    }
}

/// Where the output for the input at `path` goes, at time `stamp`: beside the
/// input, or nowhere if the input path has no parent directory.
pub open spec fn output_path(path: Seq<char>, format: Seq<char>, stamp: Seq<char>) -> Option<Seq<char>> {
    match parent_of(path) {
        Some(dir) => Some(joined_path(dir, stamped_name(output_stem(path), format, stamp))),
        None => None,
    }
}

/// The message of the error for an input path without a parent directory.
pub open spec fn no_parent_message(path: Seq<char>) -> Seq<char> {
    "無法取得父目錄: "@ + path
}

/// The message of the error for a clock that cannot be read.
pub open spec fn clock_message() -> Seq<char> {
    "無法讀取系統時間"@
}

fn no_parent_error(path: &str) -> (e: JobError)
    ensures
        e.kind == ErrorKind::NotFound,
        e.message@ == no_parent_message(path@),
{
    let mut message = "無法取得父目錄: ".to_owned();
    message.append(path);
    io_error_maker(ErrorKind::NotFound, message.as_str())
}

/// The file name `<prefix>_<stamp>.<format>`.
pub fn stamped_filename(prefix: &str, format: &str, stamp: &str) -> (r: String)
    ensures
        r@ == stamped_name(prefix@, format@, stamp@),
{
    let mut r = prefix.to_owned();
    r.append("_");
    r.append(stamp);
    r.append(".");
    r.append(format);
    r
}

/// The file name `<prefix>_<YYYYMMDD>_<HHMMSS>.<format>` for the time `t`.
pub fn timestamp_filename_at(prefix: &str, format: &str, t: &ClockTime) -> (r: String)
    requires
        t.valid(),
    ensures
        r@ == stamped_name(prefix@, format@, stamp_text(*t)),
{
    let stamp = format_stamp(t);
    stamped_filename(prefix, format, stamp.as_str())
}

/// The file name for `prefix` and `format` stamped with the clock reading
/// `now`, or `None` where the reading cannot be written as a stamp.
pub fn timestamp_filename_from_reading(prefix: &str, format: &str, now: Option<ClockTime>) -> (r: Option<String>)
    ensures
        r is Some <==> usable(now),
        r matches Some(n) ==> n@ == stamped_name(prefix@, format@, stamp_text(now->0)),
{
    match now {
        Some(t) => if 0 <= t.year && t.year <= 9999 && 1 <= t.month && t.month <= 12 && 1 <= t.day
            && t.day <= 31 && t.hour < 24 && t.minute < 60 && t.second < 60 {
            Some(timestamp_filename_at(prefix, format, &t))
        } else {
            None
        },
        None => None,
    }
}

/// A file name made of `prefix`, the local time now and the extension
/// `format`, or `None` where the clock cannot be read.
pub fn timestamp_filename(prefix: &str, format: &str) -> (r: Option<String>)
    ensures
        r matches Some(n) ==> exists|t: ClockTime|
            t.valid() && n@ == stamped_name(prefix@, format@, stamp_text(t)),
{
    let now = local_now();
    let r = timestamp_filename_from_reading(prefix, format, now);
    proof {
        if r is Some {
            assert(now->0.valid());
        }
    }
    r
}

/// The output path for the input at `path` and the time `t`.
pub fn output_path_at(path: &str, format: &str, t: &ClockTime) -> (r: Result<String, JobError>)
    requires
        t.valid(),
    ensures
        match r {
            Ok(p) => output_path(path@, format@, stamp_text(*t)) == Some(p@),
            Err(e) => parent_of(path@) is None && e.kind == ErrorKind::NotFound
                && e.message@ == no_parent_message(path@),
        },
{
    let dir = match file_parent_dir(path) {
        Some(d) => d,
        None => return Err(no_parent_error(path)),
    };
    let prefix = match file_stem(path) {
        Some(s) => s,
        None => "output".to_owned(),
    };
    let filename = timestamp_filename_at(prefix.as_str(), format, t);
    Ok(path_join(dir.as_str(), filename.as_str()))
}

/// The output path for the input at `path`, stamped with the clock reading
/// `now`. A missing parent directory is reported before an unusable reading.
pub fn full_path_from_reading(path: &str, format: &str, now: Option<ClockTime>) -> (r: Result<String, JobError>)
    ensures
        r is Ok <==> (parent_of(path@) is Some && usable(now)),
        r matches Ok(p) ==> output_path(path@, format@, stamp_text(now->0)) == Some(p@),
        r matches Err(e) ==> if parent_of(path@) is None {
            e.kind == ErrorKind::NotFound && e.message@ == no_parent_message(path@)
        } else {
            e.kind == ErrorKind::ClockFailure && e.message@ == clock_message()
        },
{
    if file_parent_dir(path).is_none() {
        return Err(no_parent_error(path));
    }
    match now {
        Some(t) => if 0 <= t.year && t.year <= 9999 && 1 <= t.month && t.month <= 12 && 1 <= t.day
            && t.day <= 31 && t.hour < 24 && t.minute < 60 && t.second < 60 {
            return output_path_at(path, format, &t);
        },
        None => {},
    }
    Err(io_error_maker(ErrorKind::ClockFailure, "無法讀取系統時間"))
}

/// The output path for the input at `path`, stamped with the local time now.
/// A missing parent directory is reported before an unreadable clock.
pub fn full_path_maker(path: &str, format: &str) -> (r: Result<String, JobError>)
    ensures
        match r {
            Ok(p) => exists|t: ClockTime| t.valid() && output_path(path@, format@, stamp_text(t)) == Some(p@),
            Err(e) => if parent_of(path@) is None {
                e.kind == ErrorKind::NotFound && e.message@ == no_parent_message(path@)
            } else {
                e.kind == ErrorKind::ClockFailure && e.message@ == clock_message()
            },
        },
{
    let now = local_now();
    let r = full_path_from_reading(path, format, now);
    proof {
        if r is Ok {
            assert(now->0.valid());
        }
    }
    r
}

} // verus!
