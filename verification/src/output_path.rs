//! Checks on the path of a recording before anything is sent.

use crate::command::start_path;
use crate::paths::{
    ends_before, extension_of, has_plain_extension, is_drive_and_dot, is_extension_of,
    is_file_name, is_last_part, is_lone_dot, is_padding, is_settled, is_special, may_be_extension,
    may_be_parent, may_be_prefix, may_be_share, may_separate, only_separators_and_dots, parent_of,
    separates,
};
use crate::text::{
    ascii_lower, ascii_lower_char, both_told, decimal, decimal_text, decimals_read_back,
    is_white_space, join2, number_in, optional_text, same_ignoring_case, told, trimmed,
};
use vstd::prelude::*;

verus! {

/// The extension of a WAV file, whatever the case of its letters.
pub open spec fn is_wav(extension: Option<Seq<char>>) -> bool {
    extension matches Some(e) && ascii_lower(e) == "wav"@
}

/// The directory in which a path with this parent lies: the current one, where the
/// parent is empty or there is none.
pub open spec fn directory_of(parent: Option<Seq<char>>) -> Seq<char> {
    match parent {
        Some(p) if p.len() > 0 => p,
        _ => "."@,
    }
}

/// The verdict on a path with this extension and this parent: the directory that it
/// lies in, or the message that it is no WAV file.
pub open spec fn path_verdict(
    path: Seq<char>,
    extension: Option<Seq<char>>,
    parent: Option<Seq<char>>,
) -> Result<Seq<char>, Seq<char>> {
    if is_wav(extension) {
        Ok(directory_of(parent))
    } else {
        Err("'.wav' 拡張子のファイルを指定してください: "@ + path)
    }
}

/// Judges a path by its extension and its parent.
pub fn judge_path(path: &str, extension: Option<String>, parent: Option<String>) -> (r: Result<
    String,
    String,
>)
    ensures
        both_told(r) == path_verdict(path@, optional_text(extension), optional_text(parent)),
{
    let wav = match &extension {
        Some(e) => {
            proof {
                reveal_strlit("wav");
                assert(ascii_lower("wav"@) == "wav"@);
            }
            same_ignoring_case(e.as_str(), "wav")
        },
        None => false,
    };
    if !wav {
        return Err(join2("'.wav' 拡張子のファイルを指定してください: ", path));
    }
    match parent {
        Some(p) => {
            if p.as_str().is_empty() {
                Ok(".".to_owned())
            } else {
                Ok(p)
            }
        },
        None => Ok(".".to_owned()),
    }
}

/// What the verdict on a path is where its form alone decides, on every platform.
pub open spec fn is_right_verdict(
    path: Seq<char>,
    verdict: Result<Seq<char>, Seq<char>>,
) -> bool {
    &&& forall|e: Seq<char>| #[trigger]
        has_plain_extension(path, e) ==> verdict is Ok == (ascii_lower(e) == "wav"@)
    &&& forall|at: int| is_settled(path) && #[trigger] ends_in_dot_name(path, at) ==> verdict is Err
    &&& is_settled(path) && ends_in_dot(path) ==> verdict is Err
    &&& forall|e: Seq<char>|
        !may_be_share(path) && path.len() > 0 && path.last() == '/' && #[trigger] has_plain_extension(
            path.drop_last(),
            e,
        ) && ascii_lower(e) == "wav"@ ==> verdict is Ok
    &&& verdict is Ok ==> 0 < verdict->Ok_0.len() < path.len()
    &&& verdict is Ok && is_file_name(path) ==> verdict->Ok_0 == "."@
    &&& forall|d: Seq<char>|
        verdict is Ok && !may_be_share(path) && #[trigger] is_file_in(path, d, '/')
            ==> verdict->Ok_0 == d
    &&& forall|d: Seq<char>|
        verdict is Ok && is_settled(path) && !path.contains('/') && #[trigger] is_file_in(
            path,
            d,
            '\\',
        ) ==> verdict->Ok_0 == d || verdict->Ok_0 == "."@ || (may_be_share(path) && verdict->Ok_0
            == d.push('\\'))
}

/// Checks the path of a recording and returns the directory in which it lies, which is
/// then to be probed (see [`judge_directory`]).
///
/// The path must have the extension `wav`, whatever the case of its letters.
pub fn validate_output_path(path: &str) -> (r: Result<String, String>)
    ensures
        exists|extension: Option<Seq<char>>, parent: Option<Seq<char>>|
            #![trigger path_verdict(path@, extension, parent)]
            may_be_extension(path@, extension) && may_be_parent(path@, parent) && both_told(r)
                == path_verdict(path@, extension, parent),
        is_right_verdict(path@, both_told(r)),
{
    let extension: Option<String> = extension_of(path);
    let parent: Option<String> = parent_of(path);
    let ghost e = optional_text(extension);
    let ghost p = optional_text(parent);
    let r: Result<String, String> = judge_path(path, extension, parent);
    assert(both_told(r) == path_verdict(path@, e, p));
    proof {
        verdicts_are_right(path@, e, p);
    }
    r
}

/// What the file system says of the directory of a recording.
pub enum DirectoryProbe {
    /// It does not exist.
    Missing,
    /// A file cannot be created in it, for this reason.
    NotWritable(String),
    /// A file can be created in it.
    Writable,
}

/// The verdict on a directory.
pub open spec fn directory_verdict(directory: Seq<char>, probe: DirectoryProbe) -> Result<
    (),
    Seq<char>,
> {
    match probe {
        DirectoryProbe::Missing => Err("出力先ディレクトリが存在しません: "@ + directory),
        DirectoryProbe::NotWritable(reason) => Err(
            "出力先ディレクトリへの書き込み権限がありません: "@ + directory + " ("@ + reason@ + ")"@,
        ),
        DirectoryProbe::Writable => Ok(()),
    }
}

/// Judges the directory of a recording by what the file system says of it.
pub fn judge_directory(directory: &str, probe: DirectoryProbe) -> (r: Result<(), String>)
    ensures
        told(r) == directory_verdict(directory@, probe),
{
    match probe {
        DirectoryProbe::Missing => Err(join2("出力先ディレクトリが存在しません: ", directory)),
        DirectoryProbe::NotWritable(reason) => {
            let mut message: String = join2(
                "出力先ディレクトリへの書き込み権限がありません: ",
                directory,
            );
            message.append(" (");
            message.append(reason.as_str());
            message.append(")");
            Err(message)
        },
        DirectoryProbe::Writable => Ok(()),
    }
}

/// The name of the file that is created to probe a directory. The number of the process
/// keeps two clients apart.
pub fn probe_file_name(process: u32) -> (r: String)
    ensures
        r@ == ".audio_rec_write_test_"@ + decimal(process as nat),
{
    let number: String = decimal_text(process as u64);
    join2(".audio_rec_write_test_", number.as_str())
}

/// A path that ends in a plain extension `wav` is accepted, whatever the case of its
/// letters.
pub proof fn plain_wav_paths_are_accepted(
    path: Seq<char>,
    wav: Seq<char>,
    extension: Option<Seq<char>>,
    parent: Option<Seq<char>>,
)
    requires
        may_be_extension(path, extension),
        has_plain_extension(path, wav),
        ascii_lower(wav) == "wav"@,
    ensures
        path_verdict(path, extension, parent) is Ok,
{
}

/// A path that ends in any other plain extension is refused.
pub proof fn other_extensions_are_refused(
    path: Seq<char>,
    other: Seq<char>,
    extension: Option<Seq<char>>,
    parent: Option<Seq<char>>,
)
    requires
        may_be_extension(path, extension),
        has_plain_extension(path, other),
        ascii_lower(other) != "wav"@,
    ensures
        path_verdict(path, extension, parent) is Err,
{
}

/// A path without a dot is refused.
pub proof fn paths_without_a_dot_are_refused(
    path: Seq<char>,
    extension: Option<Seq<char>>,
    parent: Option<Seq<char>>,
)
    requires
        may_be_extension(path, extension),
        !path.contains('.'),
    ensures
        path_verdict(path, extension, parent) is Err,
{
}

/// Where `path` ends, its last part does, unless it ends in a separator or in a single
/// dot behind one.
proof fn last_part_ends_the_path(
    path: Seq<char>,
    windows: bool,
    prefix: int,
    from: int,
    to: int,
)
    requires
        is_last_part(path, windows, prefix, from, to),
        path.len() > 0,
        !separates(path.last(), windows),
        !is_lone_dot(path, windows, path.len() - 1),
    ensures
        to == path.len(),
{
    if to < path.len() {
        assert(path[path.len() - 1] == path.last());
    }
}

/// `path` ends in a name that starts with a dot and holds no other.
pub open spec fn ends_in_dot_name(path: Seq<char>, at: int) -> bool {
    &&& 0 <= at && at + 1 < path.len()
    &&& at == 0 || path[at - 1] == '/'
    &&& path[at] == '.'
    &&& forall|i: int| at < i < path.len() ==> !is_special(#[trigger] path[i]) && path[i] != '.'
}

/// A prefix ends behind a colon, or a separator or nothing follows it.
proof fn prefixes_end_at_a_border(path: Seq<char>, prefix: int)
    requires
        may_be_prefix(path, prefix),
    ensures
        0 <= prefix,
        prefix == 0 || prefix >= path.len() || may_separate(path[prefix]) || path[prefix - 1]
            == ':',
{
}

/// A name that is a dot and `wav` has no extension: it is refused, and so is every
/// other name that holds no dot but at its start.
pub proof fn dot_names_are_refused(
    path: Seq<char>,
    at: int,
    extension: Option<Seq<char>>,
    parent: Option<Seq<char>>,
)
    requires
        is_settled(path),
        may_be_extension(path, extension),
        ends_in_dot_name(path, at),
    ensures
        extension is None,
        path_verdict(path, extension, parent) is Err,
{
    assert forall|windows: bool, prefix: int, from: int, to: int| #[trigger]
        is_last_part(path, windows, prefix, from, to) && (!windows && prefix == 0 || may_be_prefix(
            path,
            prefix,
        )) implies from == at && to == path.len() by {
        assert(path[path.len() - 1] == path.last());
        last_part_ends_the_path(path, windows, prefix, from, to);
        if may_be_prefix(path, prefix) {
            prefixes_end_at_a_border(path, prefix);
        }
        if from > at {
            assert(!is_special(path[from]));
            if from - 1 > at {
                assert(!is_special(path[from - 1]));
            }
        }
        if from < at {
            assert(separates(path[at - 1], windows));
        }
    }
    if let Some(e) = extension {
        let name = path.subrange(at, path.len() as int);
        assert(is_extension_of(name, extension));
        let dot = name.len() - e.len() - 1;
        assert(name[dot] == path[at + dot]);
    }
}

/// `path` ends in a dot that is no part of its own.
pub open spec fn ends_in_dot(path: Seq<char>) -> bool {
    path.len() >= 2 && path.last() == '.' && !may_separate(path[path.len() - 2])
}

/// A path that ends in a dot is refused, wherever that dot is not a part of its own; so
/// is one that ends in two.
pub proof fn names_with_a_dot_at_their_end_are_refused(
    path: Seq<char>,
    extension: Option<Seq<char>>,
    parent: Option<Seq<char>>,
)
    requires
        is_settled(path),
        may_be_extension(path, extension),
        ends_in_dot(path),
    ensures
        path_verdict(path, extension, parent) is Err,
{
    reveal_strlit("wav");
    assert forall|windows: bool, prefix: int, from: int, to: int| #[trigger]
        is_last_part(path, windows, prefix, from, to) implies to == path.len() by {
        last_part_ends_the_path(path, windows, prefix, from, to);
    }
    if let Some(e) = extension {
        if e.len() > 0 {
            assert forall|windows: bool, prefix: int, from: int, to: int| #[trigger]
                is_last_part(path, windows, prefix, from, to) implies !is_extension_of(
                path.subrange(from, to),
                extension,
            ) by {
                let name = path.subrange(from, to);
                assert(name.last() == path.last());
                if is_extension_of(name, extension) {
                    assert(e.last() == name.last());
                    assert(e.contains('.'));
                }
            }
        } else {
            assert(ascii_lower(e).len() == 0);
        }
    }
}

/// A separator behind a path does not count: where the path is a WAV file's, it is with
/// a slash behind it.
pub proof fn slashes_at_the_end_do_not_count(
    path: Seq<char>,
    wav: Seq<char>,
    extension: Option<Seq<char>>,
    parent: Option<Seq<char>>,
)
    requires
        !may_be_share(path),
        has_plain_extension(path, wav),
        ascii_lower(wav) == "wav"@,
        may_be_extension(path.push('/'), extension),
    ensures
        extension == Some(wav),
        path_verdict(path.push('/'), extension, parent) is Ok,
{
    let longer = path.push('/');
    let n = path.len() as int;
    let dot = n - wav.len() - 1;
    assert forall|i: int| dot < i < n implies !is_special(#[trigger] longer[i]) && longer[i]
        != '.' by {
        assert(longer[i] == path.skip(n - wav.len())[i - dot - 1]);
        assert(wav.contains(wav[i - dot - 1]));
    }
    assert(longer[dot] == '.' && !is_special(longer[dot - 1]));
    assert(is_settled(longer)) by {
        assert(may_be_prefix(longer, 0) || may_be_prefix(longer, 2));
    }
    assert forall|windows: bool, prefix: int| #[trigger]
        is_padding(longer, windows, prefix, n + 1) && prefix <= n - 1 implies false by {
        assert(separates(longer[n - 1], windows) || is_lone_dot(longer, windows, n - 1));
    }
    assert forall|windows: bool, prefix: int, from: int, to: int| #[trigger]
        is_last_part(longer, windows, prefix, from, to) && (!windows && prefix == 0
            || may_be_prefix(longer, prefix)) implies to == n && from < dot by {
        if to < n {
            assert(separates(longer[n - 1], windows) || is_lone_dot(longer, windows, n - 1));
        }
        if to == n + 1 {
            assert(!separates(longer[n], windows));
        }
        if from >= dot {
            if from > prefix {
                assert(separates(longer[from - 1], windows));
            } else {
                assert(longer[1] == ':' && prefix == 2);
            }
        }
    }
    assert forall|from: int| 0 <= from < dot && #[trigger] is_extension_of(
        longer.subrange(from, n),
        extension,
    ) implies extension == Some(wav) by {
        let name = longer.subrange(from, n);
        assert(name[dot - from] == '.');
        assert(name.skip(dot - from + 1) == wav);
        let e = extension->0;
        let at = name.len() - e.len() - 1;
        if at < dot - from {
            assert(e[dot - from - at - 1] == name[dot - from]);
            assert(e.contains('.'));
        }
        if at > dot - from {
            assert(name[at] == longer[from + at]);
        }
    }
}

/// Where the last name in `path` ends: at its end, or before a slash there.
pub open spec fn name_end(path: Seq<char>) -> int {
    if path.len() > 0 && path.last() == '/' {
        path.len() - 1
    } else {
        path.len() as int
    }
}

/// `path` is `directory`, a separator and the name of a file. A slash may follow.
pub open spec fn is_file_in(path: Seq<char>, directory: Seq<char>, separator: char) -> bool {
    &&& directory.len() > 0
    &&& !is_special(directory.last()) && directory.last() != '.'
    &&& directory.is_prefix_of(path)
    &&& directory.len() + 1 < name_end(path)
    &&& path[directory.len() as int] == separator
    &&& is_file_name(path.subrange(directory.len() as int + 1, name_end(path)))
}

/// Where a name stands at the end of `path`, it is its last part, by rules that take
/// what stands before it for a separator.
proof fn last_part_is_the_name(
    path: Seq<char>,
    windows: bool,
    prefix: int,
    from: int,
    to: int,
    at: int,
)
    requires
        is_last_part(path, windows, prefix, from, to),
        0 <= at < name_end(path),
        at == 0 || separates(path[at - 1], windows),
        is_file_name(path.subrange(at, name_end(path))),
        !may_be_share(path) || name_end(path) == path.len(),
        windows && may_be_prefix(path, prefix) || (!windows && prefix == 0),
    ensures
        from == at,
        to == name_end(path),
{
    let end = name_end(path);
    let name = path.subrange(at, end);
    assert forall|i: int| at <= i < end implies !is_special(#[trigger] path[i]) by {
        assert(path[i] == name[i - at]);
    }
    if path[end - 1] == '.' && at == end - 1 {
        assert(name =~= seq!['.']);
    }
    if to < end {
        assert(separates(path[end - 1], windows) || is_lone_dot(path, windows, end - 1));
    }
    if to > end {
        assert(path[end] == '/');
        assert(separates(path[end], windows));
        if from <= end {
            assert(!separates(path[end], windows));
        }
    }
    if may_be_prefix(path, prefix) {
        prefixes_end_at_a_border(path, prefix);
    }
    if from > at {
        assert(!is_special(path[from]) && !is_special(path[from - 1]));
    }
    if from < at {
        assert(separates(path[at - 1], windows));
    }
}

/// A name alone lies in the current directory.
pub proof fn names_lie_in_the_current_directory(path: Seq<char>, parent: Option<Seq<char>>)
    requires
        is_file_name(path),
        may_be_parent(path, parent),
    ensures
        directory_of(parent) == "."@,
{
    assert(!is_special(path.last()));
    assert(path.subrange(0, path.len() as int) =~= path);
    assert(!is_special(path[0]));
    assert(path.len() >= 2 ==> !is_special(path[1]));
    assert forall|windows: bool, prefix: int, from: int, to: int| #[trigger]
        is_last_part(path, windows, prefix, from, to) && (windows && may_be_prefix(path, prefix)
            || (!windows && prefix == 0)) implies from == 0 by {
        last_part_is_the_name(path, windows, prefix, from, to, 0);
    }
}

/// What stands before a slash and the name of a file is its directory.
pub proof fn files_lie_before_a_slash(
    path: Seq<char>,
    directory: Seq<char>,
    parent: Option<Seq<char>>,
)
    requires
        !may_be_share(path),
        is_file_in(path, directory, '/'),
        may_be_parent(path, parent),
    ensures
        directory_of(parent) == directory,
{
    let at = directory.len() as int + 1;
    let border = directory.len() as int;
    assert(path[border - 1] == directory.last());
    assert(path[border] == '/');
    assert forall|windows: bool, prefix: int, from: int, to: int, end: int|
        #![trigger
            is_last_part(path, windows, prefix, from, to),
            ends_before(path, windows, prefix, end, from)]
        is_last_part(path, windows, prefix, from, to) && ends_before(
            path,
            windows,
            prefix,
            end,
            from,
        ) && (windows && may_be_prefix(path, prefix) || (!windows && prefix == 0)) implies end
        == border by {
        last_part_is_the_name(path, windows, prefix, from, to, at);
        if may_be_prefix(path, prefix) {
            prefixes_end_at_a_border(path, prefix);
        }
        if end < border {
            assert(separates(path[border - 1], windows) || is_lone_dot(path, windows, border - 1));
        }
    }
    assert forall|windows: bool, prefix: int| #[trigger]
        is_padding(path, windows, prefix, path.len() as int) && (windows && may_be_prefix(
            path,
            prefix,
        ) || (!windows && prefix == 0)) implies false by {
        assert(path[border - 1] == directory.last());
        if may_be_prefix(path, prefix) {
            prefixes_end_at_a_border(path, prefix);
        }
        if prefix <= border - 1 {
            assert(separates(path[border - 1], windows) || is_lone_dot(path, windows, border - 1));
        }
    }
    assert forall|prefix: int| !#[trigger] is_drive_and_dot(path, true, prefix) by {
        if is_drive_and_dot(path, true, prefix) && border - 1 >= 3 {
            assert(separates(path[border - 1], true) || is_lone_dot(path, true, border - 1));
        }
    }
    assert(parent is Some);
    let p = parent->0;
    assert(p.len() == border);
    assert(p =~= directory);
}

/// What stands before a backslash and the name of a file is its directory on the
/// platform that separates by it; where that is the whole of a prefix, the backslash
/// belongs to it. Elsewhere a path without a slash lies in the current directory.
pub proof fn files_lie_before_a_backslash(
    path: Seq<char>,
    directory: Seq<char>,
    parent: Option<Seq<char>>,
)
    requires
        is_settled(path),
        !path.contains('/'),
        is_file_in(path, directory, '\\'),
        may_be_parent(path, parent),
    ensures
        directory_of(parent) == directory || directory_of(parent) == "."@ || (may_be_share(path)
            && directory_of(parent) == directory.push('\\')),
{
    let at = directory.len() as int + 1;
    let border = directory.len() as int;
    assert(path[border - 1] == directory.last());
    assert(path.contains(path.last()));
    assert forall|prefix: int, from: int, to: int, end: int|
        #![trigger
            is_last_part(path, true, prefix, from, to),
            ends_before(path, true, prefix, end, from)]
        is_last_part(path, true, prefix, from, to) && ends_before(path, true, prefix, end, from)
            && may_be_prefix(path, prefix) implies end == border || (may_be_share(path) && end
        == border + 1) by {
        last_part_is_the_name(path, true, prefix, from, to, at);
        prefixes_end_at_a_border(path, prefix);
        if end < border {
            assert(separates(path[border - 1], true) || is_lone_dot(path, true, border - 1));
        }
    }
    assert forall|from: int, to: int| #[trigger]
        is_last_part(path, false, 0, from, to) implies from == 0 by {
        if from > 0 {
            assert(path.contains(path[from - 1]));
        }
    }
    if let Some(p) = parent {
        if p.len() == border {
            assert(p =~= directory);
        }
        if p.len() == border + 1 {
            assert(p =~= directory.push('\\'));
        }
    }
}

/// A file is not its own directory: what is probed is shorter than the path.
pub proof fn directories_are_shorter_than_paths(
    path: Seq<char>,
    extension: Option<Seq<char>>,
    parent: Option<Seq<char>>,
    directory: Seq<char>,
)
    requires
        may_be_extension(path, extension),
        may_be_parent(path, parent),
        path_verdict(path, extension, parent) == Ok::<Seq<char>, Seq<char>>(directory),
    ensures
        0 < directory.len() < path.len(),
{
    reveal_strlit(".");
    reveal_strlit("wav");
    let e = extension->0;
    assert(ascii_lower(e).len() == 3);
}

/// Where the form of a path decides, the verdict on it is right on every platform.
pub proof fn verdicts_are_right(
    path: Seq<char>,
    extension: Option<Seq<char>>,
    parent: Option<Seq<char>>,
)
    requires
        may_be_extension(path, extension),
        may_be_parent(path, parent),
    ensures
        is_right_verdict(path, path_verdict(path, extension, parent)),
{
    let verdict = path_verdict(path, extension, parent);
    assert forall|at: int| is_settled(path) && #[trigger] ends_in_dot_name(
        path,
        at,
    ) implies verdict is Err by {
        dot_names_are_refused(path, at, extension, parent);
    }
    if is_settled(path) && ends_in_dot(path) {
        names_with_a_dot_at_their_end_are_refused(path, extension, parent);
    }
    assert forall|e: Seq<char>|
        !may_be_share(path) && path.len() > 0 && path.last() == '/' && #[trigger] has_plain_extension(
            path.drop_last(),
            e,
        ) && ascii_lower(e) == "wav"@ implies verdict is Ok by {
        assert(path.drop_last().push('/') =~= path);
        slashes_at_the_end_do_not_count(path.drop_last(), e, extension, parent);
    }
    if verdict is Ok {
        directories_are_shorter_than_paths(path, extension, parent, verdict->Ok_0);
        if is_file_name(path) {
            names_lie_in_the_current_directory(path, parent);
        }
        assert forall|d: Seq<char>| !may_be_share(path) && #[trigger] is_file_in(
            path,
            d,
            '/',
        ) implies verdict->Ok_0 == d by {
            files_lie_before_a_slash(path, d, parent);
        }
        assert forall|d: Seq<char>|
            is_settled(path) && !path.contains('/') && #[trigger] is_file_in(
                path,
                d,
                '\\',
            ) implies verdict->Ok_0 == d || verdict->Ok_0 == "."@ || (may_be_share(path)
            && verdict->Ok_0 == d.push('\\')) by {
            files_lie_before_a_backslash(path, d, parent);
        }
    }
}

/// A path that is accepted reaches the plugin unchanged: what the plugin takes for the
/// path in the command, white space trimmed, is the path that was checked.
pub proof fn accepted_paths_arrive_unchanged(
    path: Seq<char>,
    extension: Option<Seq<char>>,
    parent: Option<Seq<char>>,
)
    requires
        may_be_extension(path, extension),
        path_verdict(path, extension, parent) is Ok,
    ensures
        start_path(trimmed("start:"@ + path)) == Some(path),
{
    let command = "start:"@ + path;
    reveal_strlit("start:");
    reveal_strlit("wav");
    let e = extension->0;
    let i = choose|i: int|
        0 <= i && i + 1 + e.len() <= path.len() && #[trigger] path[i] == '.' && path.subrange(
            i + 1,
            i + 1 + e.len(),
        ) == e && only_separators_and_dots(path, i + 1 + e.len());
    assert(ascii_lower(e).len() == 3);
    assert(ascii_lower(e)[2] == 'v');
    assert(ascii_lower_char(e[2]) == 'v');
    if i + 1 + e.len() < path.len() {
        assert(may_separate(path[path.len() - 1]) || path[path.len() - 1] == '.');
    } else {
        assert(path.last() == path.subrange(i + 1, i + 1 + e.len())[2]);
    }
    assert(!is_white_space(path.last()));
    assert(command.first() == 's');
    assert(command.last() == path.last());
    assert(trimmed(command) == command);
    assert("start:"@.is_prefix_of(command));
    assert(command.skip("start:"@.len() as int) == path);
}

/// `e` is `wav`, whatever the case of each letter.
pub open spec fn spells_wav(e: Seq<char>) -> bool {
    &&& e.len() == 3
    &&& e[0] == 'w' || e[0] == 'W'
    &&& e[1] == 'a' || e[1] == 'A'
    &&& e[2] == 'v' || e[2] == 'V'
}

/// The extensions that count as a WAV file's are the ones that spell so.
proof fn wav_is_spelled(e: Seq<char>)
    ensures
        ascii_lower(e) == "wav"@ <==> spells_wav(e),
{
    reveal_strlit("wav");
    let low = ascii_lower(e);
    assert(low.len() == e.len());
    if e.len() == 3 {
        assert(low[0] == ascii_lower_char(e[0]) && low[1] == ascii_lower_char(e[1]) && low[2]
            == ascii_lower_char(e[2]));
        if spells_wav(e) {
            assert(low =~= "wav"@);
        }
        if low == "wav"@ {
            assert(low[0] == 'w' && low[1] == 'a' && low[2] == 'v');
        }
    }
}

/// A path is accepted exactly where its extension spells `wav`; what is returned is its
/// parent, whole and unchanged, or the current directory where there is none. A path
/// that is refused stands at the end of the message.
pub proof fn paths_are_judged_by_their_extension(
    path: &str,
    extension: Option<String>,
    parent: Option<String>,
    verdict: Result<String, String>,
)
    requires
        call_ensures(judge_path, (path, extension, parent), verdict),
    ensures
        verdict is Ok <==> extension is Some && spells_wav(extension->0@),
        verdict is Ok && parent is Some && parent->0@.len() > 0 ==> verdict->Ok_0@ == parent->0@,
        verdict is Ok && (parent is None || parent->0@.len() == 0) ==> verdict->Ok_0@ == "."@,
        verdict matches Err(message) ==> message@
            =~= "'.wav' 拡張子のファイルを指定してください: "@ + path@,
{
    if let Some(e) = extension {
        wav_is_spelled(e@);
    }
    assert(both_told(verdict) == path_verdict(
        path@,
        optional_text(extension),
        optional_text(parent),
    ));
}

/// A file in a directory is accepted exactly where what stands behind the last dot of
/// its name spells `wav`, and the directory that is probed is the one it lies in, whole
/// and unchanged.
pub proof fn files_are_judged_by_their_names(
    path: &str,
    directory: Seq<char>,
    extension: Seq<char>,
    verdict: Result<String, String>,
)
    requires
        call_ensures(validate_output_path, (path,), verdict),
        has_plain_extension(path@, extension),
    ensures
        verdict is Ok <==> spells_wav(extension),
        verdict is Ok && !may_be_share(path@) && is_file_in(path@, directory, '/')
            ==> verdict->Ok_0@ == directory,
        verdict is Ok && is_file_name(path@) ==> verdict->Ok_0@ == "."@,
        verdict matches Err(message) ==> message@
            =~= "'.wav' 拡張子のファイルを指定してください: "@ + path@,
{
    wav_is_spelled(extension);
    assert(is_right_verdict(path@, both_told(verdict)));
}

/// A directory is accepted exactly where a file can be created in it, and the message
/// names it, whole and unchanged, with the reason where there is one.
pub proof fn directories_are_judged_by_their_probe(
    directory: &str,
    probe: DirectoryProbe,
    verdict: Result<(), String>,
)
    requires
        call_ensures(judge_directory, (directory, probe), verdict),
    ensures
        verdict is Ok <==> probe is Writable,
        probe is Missing ==> verdict->Err_0@ =~= "出力先ディレクトリが存在しません: "@
            + directory@,
        probe matches DirectoryProbe::NotWritable(reason) ==> verdict->Err_0@
            =~= "出力先ディレクトリへの書き込み権限がありません: "@ + directory@ + " ("@ + reason@
            + ")"@,
{
    assert(told(verdict) == directory_verdict(directory@, probe));
}

/// The file that probes a directory carries the number of the process behind its name,
/// so that two processes have two files.
pub proof fn processes_have_probes_of_their_own(
    process: u32,
    other: u32,
    name: String,
    other_name: String,
)
    requires
        call_ensures(probe_file_name, (process,), name),
        call_ensures(probe_file_name, (other,), other_name),
    ensures
        ".audio_rec_write_test_"@.is_prefix_of(name@),
        number_in(name@.skip(".audio_rec_write_test_"@.len() as int)) == process,
        name@ == other_name@ ==> process == other,
{
    decimals_read_back(process as nat);
    decimals_read_back(other as nat);
    let front = ".audio_rec_write_test_"@;
    assert(name@.skip(front.len() as int) =~= decimal(process as nat));
    assert(other_name@.skip(front.len() as int) =~= decimal(other as nat));
    assert(front =~= name@.subrange(0, front.len() as int));
}

/// A name that holds no dot but at its start has no extension, and one that ends in a
/// dot has an empty one: a file of such a name is refused, though it may read `.wav`.
pub proof fn dot_files_are_refused(path: &str, at: int, verdict: Result<String, String>)
    requires
        call_ensures(validate_output_path, (path,), verdict),
        path@.len() >= 2,
        !((path@[0] == '/' || path@[0] == '\\') && (path@[1] == '/' || path@[1] == '\\')),
    ensures
        0 <= at && at + 1 < path@.len() && path@[at] == '.' && (at == 0 || path@[at - 1] == '/')
            && (forall|i: int|
            at < i < path@.len() ==> #[trigger] path@[i] != '/' && path@[i] != '\\' && path@[i]
                != ':' && path@[i] != '.') ==> verdict is Err,
        path@.last() == '.' && path@[path@.len() - 2] != '/' && path@[path@.len() - 2] != '\\'
            ==> verdict is Err,
        verdict matches Ok(directory) ==> 0 < directory@.len() < path@.len(),
{
    assert(is_right_verdict(path@, both_told(verdict)));
    assert(is_settled(path@));
    if 0 <= at && at + 1 < path@.len() && path@[at] == '.' && (at == 0 || path@[at - 1] == '/') && (
    forall|i: int|
        at < i < path@.len() ==> #[trigger] path@[i] != '/' && path@[i] != '\\' && path@[i] != ':'
            && path@[i] != '.') {
        assert(ends_in_dot_name(path@, at));
    }
}

/// By the rules of Windows, a file lies in what stands before the last backslash and
/// its name; a path without a slash lies in the current directory by those of Unix.
/// Nothing else is probed for it.
pub proof fn backslashes_separate_or_do_not(
    path: &str,
    directory: Seq<char>,
    verdict: Result<String, String>,
)
    requires
        call_ensures(validate_output_path, (path,), verdict),
        !may_be_share(path@),
        !path@.contains('/'),
        is_file_in(path@, directory, '\\'),
    ensures
        verdict is Ok ==> verdict->Ok_0@ == directory || verdict->Ok_0@ == "."@,
{
    assert(is_right_verdict(path@, both_told(verdict)));
}

} // verus!
