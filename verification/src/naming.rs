//! Names for recordings without a path of their own.

use crate::paths::{
    has_plain_extension, is_file_name, is_join, is_literal_prefix, is_no_share, is_share,
    is_special, join_path, joins_plainly, may_be_joined, may_be_share, may_separate, names_share,
};
use crate::text::{
    decimal, filled_decimals_read_back, join2, number_in, padded_decimal_text, zero_padded,
};
use vstd::prelude::*;

verus! {

/// A moment by the local clock.
#[derive(Clone, Copy, Debug, PartialEq, Eq, Structural)]
pub struct LocalTime {
    /// The year.
    pub year: u16,
    /// The month.
    pub month: u16,
    /// The day of the month.
    pub day: u16,
    /// The hour.
    pub hour: u16,
    /// The minute.
    pub minute: u16,
    /// The second.
    pub second: u16,
}

/// A number in decimal, filled up with zeros to `width`.
pub open spec fn filled(n: u16, width: nat) -> Seq<char> {
    zero_padded(decimal(n as nat), width)
}

/// A moment as `yyyymmdd-hhmmss`.
pub open spec fn datetime_text(t: LocalTime) -> Seq<char> {
    filled(t.year, 4) + filled(t.month, 2) + filled(t.day, 2) + "-"@ + filled(t.hour, 2) + filled(
        t.minute,
        2,
    ) + filled(t.second, 2)
}

/// The name of a recording that starts at this moment.
pub open spec fn recording_name(t: LocalTime) -> Seq<char> {
    datetime_text(t) + ".wav"@
}

/// Writes a moment as `yyyymmdd-hhmmss`.
pub fn local_datetime_string(t: &LocalTime) -> (r: String)
    ensures
        r@ == datetime_text(*t),
{
    let mut out: String = padded_decimal_text(t.year as u64, 4);
    let month: String = padded_decimal_text(t.month as u64, 2);
    let day: String = padded_decimal_text(t.day as u64, 2);
    let hour: String = padded_decimal_text(t.hour as u64, 2);
    let minute: String = padded_decimal_text(t.minute as u64, 2);
    let second: String = padded_decimal_text(t.second as u64, 2);
    out.append(month.as_str());
    out.append(day.as_str());
    out.append("-");
    out.append(hour.as_str());
    out.append(minute.as_str());
    out.append(second.as_str());
    out
}

/// A decimal digit.
pub open spec fn is_digit(c: char) -> bool {
    '0' <= c <= '9'
}

/// Nothing but decimal digits.
pub open spec fn all_digits(s: Seq<char>) -> bool {
    forall|i: int| 0 <= i < s.len() ==> is_digit(#[trigger] s[i])
}

/// A number in decimal is made of digits, and of as many as its size needs.
proof fn decimal_is_digits(n: nat)
    ensures
        all_digits(decimal(n)),
        decimal(n).len() >= 1,
        n < 10 ==> decimal(n).len() == 1,
        n < 100 ==> decimal(n).len() <= 2,
        n < 1000 ==> decimal(n).len() <= 3,
        n < 10000 ==> decimal(n).len() <= 4,
    decreases n,
{
    if n >= 10 {
        decimal_is_digits(n / 10);
    }
}

/// A filled number is made of digits, as many as it was filled up to where it fits.
proof fn filled_is_digits(n: u16, width: nat)
    ensures
        all_digits(filled(n, width)),
        filled(n, width).len() >= width,
        filled(n, width).len() >= 1,
        width == 2 && n < 100 ==> filled(n, width).len() == 2,
        width == 4 && n < 10000 ==> filled(n, width).len() == 4,
{
    decimal_is_digits(n as nat);
}

/// What is known of the characters of a recording's name.
proof fn recording_name_facts(t: LocalTime)
    ensures
        is_file_name(recording_name(t)),
        has_plain_extension(recording_name(t), "wav"@),
        is_digit(recording_name(t)[0]),
        recording_name(t).len() >= 19,
{
    reveal_strlit("-");
    reveal_strlit(".wav");
    reveal_strlit("wav");
    filled_is_digits(t.year, 4);
    filled_is_digits(t.month, 2);
    filled_is_digits(t.day, 2);
    filled_is_digits(t.hour, 2);
    filled_is_digits(t.minute, 2);
    filled_is_digits(t.second, 2);
    let stem = datetime_text(t);
    let name = recording_name(t);
    assert forall|i: int| 0 <= i < stem.len() implies is_digit(#[trigger] stem[i]) || stem[i]
        == '-' by {}
    assert(is_digit(stem.last()));
    assert forall|i: int| 0 <= i < name.len() implies !is_special(#[trigger] name[i]) by {
        if i < stem.len() {
            assert(name[i] == stem[i]);
        }
    }
    assert(name[0] == stem[0] && stem[0] == filled(t.year, 4)[0]);
    assert(name.skip(name.len() - 3) == "wav"@);
    assert(name[name.len() - 4] == '.');
    assert(name[name.len() - 5] == stem.last());
}

/// The path of a recording that starts now and was given no path: a file with the time
/// as its name, in the directory of the settings; none where no directory is set.
pub fn default_output_path(save_path: &Option<String>, now: &LocalTime) -> (r: Option<String>)
    ensures
        match *save_path {
            None => r is None,
            Some(directory) => {
                r is Some && is_join(directory@, recording_name(*now), r->0@)
            },
        },
{
    match save_path {
        None => None,
        Some(directory) => {
            let stem: String = local_datetime_string(now);
            let name: String = join2(stem.as_str(), ".wav");
            proof {
                recording_name_facts(*now);
            }
            Some(join_path(directory.as_str(), name.as_str()))
        },
    }
}

/// By a clock that shows years of four digits and everything else in two, the text is
/// as long as `yyyymmdd-hhmmss`, with the dash in its place and digits everywhere else.
pub proof fn datetime_has_its_shape(t: LocalTime)
    requires
        t.year < 10000,
        t.month < 100,
        t.day < 100,
        t.hour < 100,
        t.minute < 100,
        t.second < 100,
    ensures
        datetime_text(t).len() == 15,
        datetime_text(t)[8] == '-',
        forall|i: int|
            0 <= i < 15 && i != 8 ==> is_digit(#[trigger] datetime_text(t)[i]),
{
    reveal_strlit("-");
    filled_is_digits(t.year, 4);
    filled_is_digits(t.month, 2);
    filled_is_digits(t.day, 2);
    filled_is_digits(t.hour, 2);
    filled_is_digits(t.minute, 2);
    filled_is_digits(t.second, 2);
}

/// Files can be put in `directory`: it does not start as a share does, or it is a share
/// or lies in one, or it is taken literally and lies on a drive, in a share or in
/// something else that is named behind `\\?\`. The single backslash is left out, because
/// a platform that puts a slash behind it makes it the start of a share.
pub open spec fn is_place_for_files(directory: Seq<char>) -> bool {
    &&& directory != seq!['\\']
    &&& joins_plainly(directory)
    &&& {
        ||| !may_be_share(directory)
        ||| exists|server_end: int, share_end: int| #[trigger]
            is_share(directory, server_end, share_end)
        ||| exists|end: int| #[trigger] is_literal_prefix(directory, end) && end < directory.len()
    }
}

/// What is joined to a place for files has that place's prefix, or none.
proof fn joined_is_no_share(directory: Seq<char>, t: LocalTime, path: Seq<char>)
    requires
        may_be_joined(directory, recording_name(t), path),
        is_place_for_files(directory),
    ensures
        is_no_share(path),
{
    recording_name_facts(t);
    let name = recording_name(t);
    assert forall|i: int| 0 <= i < directory.len() implies path[i] == #[trigger] directory[i] by {}
    if !may_be_share(directory) {
        if may_be_share(path) {
            if directory.len() >= 2 {
                assert(path[0] == directory[0] && path[1] == directory[1]);
            } else if directory.len() == 1 {
                assert(path[0] == directory[0]);
                assert(directory == seq![directory[0]]);
                assert(directory[0] == '/');
                assert(path == directory + name);
                assert(path[1] == name[0]);
            } else {
                assert(path[0] == name[0]);
            }
        }
    } else if exists|server_end: int, share_end: int| #[trigger]
        is_share(directory, server_end, share_end) {
        let (server_end, share_end) = choose|server_end: int, share_end: int| #[trigger]
            is_share(directory, server_end, share_end);
        assert(directory[0] == path[0] && directory[1] == path[1] && directory[2] == path[2]);
        assert(directory[server_end] == path[server_end]);
        if share_end == directory.len() {
            assert(!is_special(directory[share_end - 1]));
        } else {
            assert(directory[share_end] == path[share_end]);
        }
        assert forall|i: int| 2 <= i < share_end && i != server_end implies !is_special(
            #[trigger] path[i],
        ) by {
            assert(!is_special(directory[i]));
        }
        assert(is_share(path, server_end, share_end));
    } else {
        let end = choose|end: int| #[trigger]
            is_literal_prefix(directory, end) && end < directory.len();
        assert(directory[0] == path[0] && directory[1] == path[1] && directory[2] == path[2]
            && directory[3] == path[3] && directory[4] == path[4] && directory[end] == path[end]);
        assert(directory.subrange(4, end) == path.subrange(4, end));
        if end == 6 {
            assert(directory[5] == path[5]);
        }
        if directory.subrange(4, 8) == seq!['U', 'N', 'C', '\\'] && exists|server_end: int|
            directory[server_end] == '\\' && #[trigger] names_share(directory, 8, server_end, end) {
            let server_end = choose|server_end: int|
                directory[server_end] == '\\' && #[trigger] names_share(directory, 8, server_end, end);
            assert(directory.subrange(4, 8) == path.subrange(4, 8));
            assert(path[server_end] == directory[server_end]);
            assert forall|i: int| 8 <= i < end && i != server_end implies !is_special(
                #[trigger] path[i],
            ) by {
                assert(!is_special(directory[i]));
            }
            assert(names_share(path, 8, server_end, end));
        }
        assert(is_literal_prefix(path, end));
    }
}

/// A recording without a path of its own has a path that is a WAV file's on every
/// platform, wherever files can be put.
pub proof fn default_path_is_a_wav_path(directory: Seq<char>, t: LocalTime, path: Seq<char>)
    requires
        may_be_joined(directory, recording_name(t), path),
        is_place_for_files(directory),
    ensures
        has_plain_extension(path, "wav"@),
{
    recording_name_facts(t);
    joined_is_no_share(directory, t, path);
    reveal_strlit("wav");
    let name = recording_name(t);
    let at = path.len() - name.len();
    assert(path.skip(at) == name);
    assert forall|i: int| 0 <= i < name.len() implies path[at + i] == #[trigger] name[i] by {
        assert(path.skip(at)[i] == name[i]);
    }
    assert(path.skip(path.len() - 3) == name.skip(name.len() - 3));
    assert(path[path.len() - 4] == name[name.len() - 4]);
    assert(path[path.len() - 5] == name[name.len() - 5]);
}

/// Characters from `from` to `to` of a text, read as a number.
pub open spec fn number_at(s: Seq<char>, from: int, to: int) -> int {
    number_in(s.subrange(from, to))
}

/// By this clock the year has four digits at most and everything else two.
pub open spec fn is_within_its_ranges(t: LocalTime) -> bool {
    t.year < 10000 && t.month < 100 && t.day < 100 && t.hour < 100 && t.minute < 100 && t.second
        < 100
}

/// A moment, as one number that is the greater the later it is.
pub open spec fn moment_number(t: LocalTime) -> int {
    ((((t.year * 100 + t.month) * 100 + t.day) * 100 + t.hour) * 100 + t.minute) * 100 + t.second
}

/// The fields of a moment read back from its text.
proof fn fields_read_back(t: LocalTime)
    requires
        is_within_its_ranges(t),
    ensures
        ({
            let s = datetime_text(t);
            &&& s.len() == 15 && s[8] == '-'
            &&& number_at(s, 0, 4) == t.year
            &&& number_at(s, 4, 6) == t.month
            &&& number_at(s, 6, 8) == t.day
            &&& number_at(s, 9, 11) == t.hour
            &&& number_at(s, 11, 13) == t.minute
            &&& number_at(s, 13, 15) == t.second
        }),
{
    datetime_has_its_shape(t);
    reveal_strlit("-");
    filled_is_digits(t.year, 4);
    filled_is_digits(t.month, 2);
    filled_is_digits(t.day, 2);
    filled_is_digits(t.hour, 2);
    filled_is_digits(t.minute, 2);
    filled_is_digits(t.second, 2);
    filled_decimals_read_back(t.year as nat, 4);
    filled_decimals_read_back(t.month as nat, 2);
    filled_decimals_read_back(t.day as nat, 2);
    filled_decimals_read_back(t.hour as nat, 2);
    filled_decimals_read_back(t.minute as nat, 2);
    filled_decimals_read_back(t.second as nat, 2);
    let s = datetime_text(t);
    assert(s.subrange(0, 4) =~= filled(t.year, 4));
    assert(s.subrange(4, 6) =~= filled(t.month, 2));
    assert(s.subrange(6, 8) =~= filled(t.day, 2));
    assert(s.subrange(9, 11) =~= filled(t.hour, 2));
    assert(s.subrange(11, 13) =~= filled(t.minute, 2));
    assert(s.subrange(13, 15) =~= filled(t.second, 2));
}

/// The text of a moment reads back as that moment: the year in its first four
/// characters, the month and the day in the next two each, a dash, and the hour, the
/// minute and the second in two each.
pub proof fn moments_read_back(t: LocalTime, text: String)
    requires
        is_within_its_ranges(t),
        call_ensures(local_datetime_string, (&t,), text),
    ensures
        text@.len() == 15,
        text@[8] == '-',
        number_at(text@, 0, 4) == t.year,
        number_at(text@, 4, 6) == t.month,
        number_at(text@, 6, 8) == t.day,
        number_at(text@, 9, 11) == t.hour,
        number_at(text@, 11, 13) == t.minute,
        number_at(text@, 13, 15) == t.second,
{
    fields_read_back(t);
}

/// Two moments have the same text only where they are the same, and the digits of the
/// later one make the greater number.
pub proof fn moments_have_texts_of_their_own(
    t: LocalTime,
    u: LocalTime,
    text_t: String,
    text_u: String,
)
    requires
        is_within_its_ranges(t),
        is_within_its_ranges(u),
        call_ensures(local_datetime_string, (&t,), text_t),
        call_ensures(local_datetime_string, (&u,), text_u),
    ensures
        text_t@ == text_u@ ==> t == u,
        moment_number(t) < moment_number(u) <==> number_at(text_t@, 0, 8) * 1000000 + number_at(
            text_t@,
            9,
            15,
        ) < number_at(text_u@, 0, 8) * 1000000 + number_at(text_u@, 9, 15),
{
    fields_read_back(t);
    fields_read_back(u);
    longer_numbers(text_t@);
    longer_numbers(text_u@);
}

/// A number of several fields is made of the numbers in them.
proof fn longer_numbers(s: Seq<char>)
    requires
        s.len() == 15,
    ensures
        number_at(s, 0, 8) == (number_at(s, 0, 4) * 100 + number_at(s, 4, 6)) * 100 + number_at(
            s,
            6,
            8,
        ),
        number_at(s, 9, 15) == (number_at(s, 9, 11) * 100 + number_at(s, 11, 13)) * 100
            + number_at(s, 13, 15),
{
    two_more_digits(s, 0, 6);
    two_more_digits(s, 0, 4);
    two_more_digits(s, 9, 13);
    two_more_digits(s, 9, 11);
}

/// Two digits more make a number a hundred times as great, and what they stand for.
proof fn two_more_digits(s: Seq<char>, from: int, to: int)
    requires
        0 <= from <= to,
        to + 2 <= s.len(),
    ensures
        number_at(s, from, to + 2) == number_at(s, from, to) * 100 + number_at(s, to, to + 2),
{
    let all = s.subrange(from, to + 2);
    let but_one = s.subrange(from, to + 1);
    assert(all.drop_last() =~= but_one);
    assert(but_one.drop_last() =~= s.subrange(from, to));
    let two = s.subrange(to, to + 2);
    assert(two.drop_last() =~= s.subrange(to, to + 1));
    assert(s.subrange(to, to + 1).drop_last() =~= Seq::empty());
    reveal_with_fuel(number_in, 4);
    assert(all.last() == s[to + 1] && but_one.last() == s[to] && two.last() == s[to + 1]);
    assert(s.subrange(to, to + 1).last() == s[to]);
}

/// A recording that was given no path lies in the directory of the settings, whole and
/// unchanged, under the time as its name: the directory comes first, the last nineteen
/// characters are the time and `.wav`, and at most one separator stands between them.
/// Without a directory there is no path.
pub proof fn default_paths_name_directory_and_time(
    save_path: Option<String>,
    now: LocalTime,
    path: Option<String>,
    text: String,
)
    requires
        is_within_its_ranges(now),
        call_ensures(default_output_path, (&save_path, &now), path),
        call_ensures(local_datetime_string, (&now,), text),
    ensures
        save_path is None <==> path is None,
        save_path is Some ==> (text@ + ".wav"@).is_suffix_of(path->0@),
        save_path matches Some(directory) ==> joins_plainly(directory@) ==> {
            let p = path->0@;
            &&& directory@.is_prefix_of(p)
            &&& directory@.len() + 19 <= p.len() <= directory@.len() + 20
            &&& p.len() == directory@.len() + 20 ==> may_separate(p[directory@.len() as int])
        },
{
    if let Some(directory) = save_path {
        reveal_strlit(".wav");
        fields_read_back(now);
        let name = recording_name(now);
        assert(name.len() == 19);
        let p = path->0@;
        if joins_plainly(directory@) {
            assert(directory@ =~= p.subrange(0, directory@.len() as int));
        }
    }
}

} // verus!
