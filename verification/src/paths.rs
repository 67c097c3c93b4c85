//! Paths as text, split and joined by the rules of the platform.
//!
//! What is stated here holds on Windows and on Unix. There a path is made of parts
//! with separators between them: `/`, and on Windows `\` too. Several separators in a
//! row count as one, a separator at the end does not count, and neither does a part
//! that is a single dot, unless it comes first. In front of the parts there may be a
//! root, which is a separator, and on Windows a prefix: a drive such as `C:`, a share
//! such as `\\server\share`, or one of the forms that start with `\\?\`.
//!
//! Which of the two platforms it is does not show in a path. A fact about a path is
//! therefore stated as: this by the rules of Unix, or this by those of Windows.

use crate::text::{ascii_lower, optional_text};
use vstd::prelude::*;

verus! {

/// The characters that separate the parts of a path.
pub open spec fn separates(c: char, windows: bool) -> bool {
    c == '/' || (windows && c == '\\')
}

/// The characters that separate parts on one of the platforms.
pub open spec fn may_separate(c: char) -> bool {
    c == '/' || c == '\\'
}

/// The characters that no part may hold to be one on both platforms: separators and
/// the mark of a drive.
pub open spec fn is_special(c: char) -> bool {
    may_separate(c) || c == ':'
}

/// `s` is one part of a path on both platforms.
pub open spec fn is_plain_name(s: Seq<char>) -> bool {
    s.len() > 0 && forall|i: int| 0 <= i < s.len() ==> !is_special(#[trigger] s[i])
}

/// `s` is the name of a file on both platforms: one part, and neither the current
/// directory nor the one above it.
pub open spec fn is_file_name(s: Seq<char>) -> bool {
    is_plain_name(s) && !(s =~= seq!['.']) && !(s =~= seq!['.', '.'])
}

/// An ASCII letter, as in the name of a drive.
pub open spec fn is_letter(c: char) -> bool {
    'a' <= c <= 'z' || 'A' <= c <= 'Z'
}

// ----- The parts of a path.

/// The character at `i` is a part of its own, a single dot behind a separator, which
/// does not count.
pub open spec fn is_lone_dot(path: Seq<char>, windows: bool, i: int) -> bool {
    &&& 0 < i < path.len()
    &&& path[i] == '.'
    &&& separates(path[i - 1], windows)
    &&& i + 1 == path.len() || separates(path[i + 1], windows)
}

/// Between `from` and `to` nothing counts.
pub open spec fn is_padding(path: Seq<char>, windows: bool, from: int, to: int) -> bool {
    forall|i: int|
        from <= i < to ==> separates(#[trigger] path[i], windows) || is_lone_dot(path, windows, i)
}

/// The last part of `path`, whose prefix ends at `prefix`, goes from `from` to `to`.
pub open spec fn is_last_part(
    path: Seq<char>,
    windows: bool,
    prefix: int,
    from: int,
    to: int,
) -> bool {
    &&& 0 <= prefix <= from < to <= path.len()
    &&& from == prefix || separates(path[from - 1], windows)
    &&& to == path.len() || separates(path[to], windows)
    &&& forall|i: int| from <= i < to ==> !separates(#[trigger] path[i], windows)
    &&& !(to == from + 1 && is_lone_dot(path, windows, from))
    &&& is_padding(path, windows, to, path.len() as int)
}

/// `extension` is what stands behind the last dot of `name`. A name has none where
/// there is no dot but at its start, and neither has `..`.
pub open spec fn is_extension_of(name: Seq<char>, extension: Option<Seq<char>>) -> bool {
    match extension {
        Some(e) => {
            &&& !(name =~= seq!['.', '.'])
            &&& e.len() + 1 < name.len()
            &&& name[name.len() - e.len() - 1] == '.'
            &&& name.skip(name.len() - e.len()) =~= e
            &&& !e.contains('.')
        },
        None => name =~= seq!['.', '.'] || forall|i: int|
            0 < i < name.len() ==> #[trigger] name[i] != '.',
    }
}

/// `extension` is the extension of the last part of `path`, whose prefix ends at
/// `prefix`; there is none where there are no parts.
pub open spec fn has_extension(
    path: Seq<char>,
    windows: bool,
    prefix: int,
    extension: Option<Seq<char>>,
) -> bool {
    ||| extension is None && is_padding(path, windows, prefix, path.len() as int)
    ||| exists|from: int, to: int| #[trigger]
        is_last_part(path, windows, prefix, from, to) && is_extension_of(
            path.subrange(from, to),
            extension,
        )
}

/// Where the root of `path` ends, whose prefix ends at `prefix`.
pub open spec fn root_end(path: Seq<char>, windows: bool, prefix: int) -> int {
    if prefix < path.len() && separates(path[prefix], windows) {
        prefix + 1
    } else {
        prefix
    }
}

/// What comes before the part at `from` ends at `end`: with the part before it, or
/// with the root or the prefix.
pub open spec fn ends_before(
    path: Seq<char>,
    windows: bool,
    prefix: int,
    end: int,
    from: int,
) -> bool {
    &&& prefix <= end <= from
    &&& is_padding(path, windows, end, from)
    &&& end == root_end(path, windows, prefix) || (end > root_end(path, windows, prefix)
        && !separates(path[end - 1], windows) && !is_lone_dot(path, windows, end - 1))
}

/// All that counts in `path` behind its drive is a single dot right behind it.
pub open spec fn is_drive_and_dot(path: Seq<char>, windows: bool, prefix: int) -> bool {
    &&& windows && prefix == 2 && path.len() > 2
    &&& path[1] == ':' && path[2] == '.'
    &&& path.len() == 3 || separates(path[3], windows)
    &&& is_padding(path, windows, 3, path.len() as int)
}

/// `parent` is what comes before the last part of `path`, whose prefix ends at
/// `prefix`; there is none where there are no parts. Left open is whether a dot right
/// behind a drive, with nothing behind it that counts, is a part.
pub open spec fn has_parent(
    path: Seq<char>,
    windows: bool,
    prefix: int,
    parent: Option<Seq<char>>,
) -> bool {
    match parent {
        None => is_padding(path, windows, prefix, path.len() as int) || is_drive_and_dot(
            path,
            windows,
            prefix,
        ),
        Some(p) => p.is_prefix_of(path) && exists|from: int, to: int| #[trigger]
            is_last_part(path, windows, prefix, from, to) && ends_before(
                path,
                windows,
                prefix,
                p.len() as int,
                from,
            ),
    }
}

// ----- The prefix of a path on Windows.

/// `s` starts as a share or a device does.
pub open spec fn may_be_share(s: Seq<char>) -> bool {
    s.len() >= 2 && may_separate(s[0]) && may_separate(s[1])
}

/// `s` starts as the paths do that Windows takes literally.
pub open spec fn may_be_literal(s: Seq<char>) -> bool {
    s.len() >= 3 && may_separate(s[0]) && may_separate(s[1]) && s[2] == '?'
}

/// From `from` on stand the name of a server, a separator at `server_end` and the name
/// of a share, which ends at `share_end`.
pub open spec fn names_share(s: Seq<char>, from: int, server_end: int, share_end: int) -> bool {
    &&& from < server_end && server_end + 1 < share_end <= s.len()
    &&& may_separate(s[server_end])
    &&& share_end == s.len() || may_separate(s[share_end])
    &&& forall|i: int|
        from <= i < share_end && i != server_end ==> !is_special(#[trigger] s[i])
}

/// The prefix of `s` is a share and ends at `share_end`.
pub open spec fn is_share(s: Seq<char>, server_end: int, share_end: int) -> bool {
    &&& may_be_share(s)
    &&& s[2] != '?' && s[2] != '.'
    &&& names_share(s, 2, server_end, share_end)
}

/// The prefix of `s` is one of those that start with `\\?\` and ends at `end`: a drive,
/// a share behind `UNC\`, or any other single part.
pub open spec fn is_literal_prefix(s: Seq<char>, end: int) -> bool {
    &&& 4 < end <= s.len()
    &&& s[0] == '\\' && s[1] == '\\' && s[2] == '?' && s[3] == '\\'
    &&& end == s.len() || s[end] == '\\'
    &&& {
        ||| end == 6 && is_letter(s[4]) && s[5] == ':'
        ||| s.subrange(4, 8) == seq!['U', 'N', 'C', '\\'] && exists|server_end: int|
            s[server_end] == '\\' && #[trigger] names_share(s, 8, server_end, end)
        ||| is_plain_name(s.subrange(4, end)) && ascii_lower(s.subrange(4, end)) != seq![
            'u',
            'n',
            'c',
        ]
    }
}

/// Behind `\\?\` there is nothing that counts otherwise there than elsewhere: no
/// slash, no two separators in a row and no part that is a single dot.
pub open spec fn is_plain_literal(s: Seq<char>) -> bool {
    &&& forall|i: int| 0 <= i < s.len() ==> #[trigger] s[i] != '/'
    &&& forall|i: int| 3 < i < s.len() ==> !(#[trigger] s[i] == '\\' && s[i - 1] == '\\')
    &&& forall|i: int| 0 <= i < s.len() ==> !#[trigger] is_lone_dot(s, true, i)
}

/// The prefix of `path` may end at `end` on Windows. Left open are a share that is
/// written with slashes, which may be none, and a colon behind something else than a
/// letter. Nothing is said of devices, of shares without a name, and of paths that are
/// taken literally where that makes a difference.
pub open spec fn may_be_prefix(path: Seq<char>, end: int) -> bool {
    if may_be_literal(path) {
        is_plain_literal(path) && is_literal_prefix(path, end)
    } else if may_be_share(path) {
        exists|server_end: int, share_end: int| #[trigger]
            is_share(path, server_end, share_end) && (end == share_end || (end == 0
                && path.contains('/')))
    } else if path.len() >= 2 && path[1] == ':' {
        end == 2 || (end == 0 && !is_letter(path[0]))
    } else {
        end == 0
    }
}

/// What the prefix of `path` is on Windows is stated here.
pub open spec fn is_settled(path: Seq<char>) -> bool {
    if may_be_literal(path) {
        is_plain_literal(path) && exists|end: int| is_literal_prefix(path, end)
    } else if may_be_share(path) {
        exists|server_end: int, share_end: int| is_share(path, server_end, share_end)
    } else {
        true
    }
}

// ----- Extensions.

/// Behind `from`, `s` holds nothing but separators and dots.
pub open spec fn only_separators_and_dots(s: Seq<char>, from: int) -> bool {
    forall|i: int| from <= i < s.len() ==> may_separate(#[trigger] s[i]) || s[i] == '.'
}

/// The last part of `s` is no part of a prefix: `s` does not start as a share does, or
/// a separator ends its prefix.
pub open spec fn is_no_share(s: Seq<char>) -> bool {
    ||| !may_be_share(s)
    ||| exists|server_end: int, share_end: int| #[trigger]
        is_share(s, server_end, share_end) && share_end < s.len()
    ||| exists|end: int| #[trigger] is_literal_prefix(s, end) && end < s.len()
}

/// `path` ends in a file name that is longer than `.` and `extension` together.
pub open spec fn has_plain_extension(path: Seq<char>, extension: Seq<char>) -> bool {
    &&& is_plain_name(extension)
    &&& !extension.contains('.')
    &&& path.len() >= extension.len() + 2
    &&& path.skip(path.len() - extension.len()) =~= extension
    &&& path[path.len() - extension.len() - 1] == '.'
    &&& !is_special(path[path.len() - extension.len() - 2])
    &&& is_no_share(path)
}

/// `extension` is the extension of `path` by the rules of one of the platforms.
pub open spec fn has_extension_somewhere(path: Seq<char>, extension: Option<Seq<char>>) -> bool {
    ||| has_extension(path, false, 0, extension)
    ||| exists|prefix: int| #[trigger]
        may_be_prefix(path, prefix) && has_extension(path, true, prefix, extension)
}

/// What holds of the extension of `path`.
///
/// It is the extension by the rules of one of the platforms, as far as its prefix is
/// stated. Whatever the prefix, an extension stands behind a dot, holds no dot, and
/// nothing but separators and dots follows it; and a plain extension at the end of a
/// path is its extension.
pub open spec fn may_be_extension(path: Seq<char>, extension: Option<Seq<char>>) -> bool {
    &&& is_settled(path) ==> has_extension_somewhere(path, extension)
    &&& extension matches Some(e) ==> !e.contains('.') && exists|i: int|
        0 <= i && i + 1 + e.len() <= path.len() && #[trigger] path[i] == '.' && path.subrange(
            i + 1,
            i + 1 + e.len(),
        ) == e && only_separators_and_dots(path, i + 1 + e.len())
    &&& forall|e: Seq<char>| #[trigger]
        has_plain_extension(path, e) ==> extension == Some(e)
}

// ----- Parents.

/// `parent` is the parent of `path` by the rules of one of the platforms.
pub open spec fn has_parent_somewhere(path: Seq<char>, parent: Option<Seq<char>>) -> bool {
    ||| has_parent(path, false, 0, parent)
    ||| exists|prefix: int| #[trigger]
        may_be_prefix(path, prefix) && has_parent(path, true, prefix, parent)
}

/// What holds of the parent of `path`.
///
/// It is the parent by the rules of one of the platforms, as far as its prefix is
/// stated. Whatever the prefix, a parent is a piece from the start of the path and
/// shorter than the path.
pub open spec fn may_be_parent(path: Seq<char>, parent: Option<Seq<char>>) -> bool {
    &&& is_settled(path) ==> has_parent_somewhere(path, parent)
    &&& parent matches Some(p) ==> p.is_prefix_of(path) && p.len() < path.len()
}

// ----- Joining.

/// A drive without anything behind it.
pub open spec fn is_drive(s: Seq<char>) -> bool {
    s.len() == 2 && is_letter(s[0]) && s[1] == ':'
}

/// `name` joined to `base`: right behind it where it is empty or ends in a separator,
/// or on Windows is a drive, and behind a separator otherwise.
pub open spec fn joined_on(windows: bool, base: Seq<char>, name: Seq<char>) -> Seq<char> {
    if base.len() == 0 || separates(base.last(), windows) || (windows && is_drive(base)) {
        base + name
    } else if windows {
        base + seq!['\\'] + name
    } else {
        base + seq!['/'] + name
    }
}

/// What holds of a file name joined to `base`: it is joined by the rules of one of the
/// platforms. Left open is a colon behind something else than a letter, which may be a
/// drive.
pub open spec fn may_be_joined(base: Seq<char>, name: Seq<char>, joined: Seq<char>) -> bool {
    ||| joined == joined_on(false, base, name)
    ||| joined == joined_on(true, base, name)
    ||| base.len() == 2 && base[1] == ':' && joined == base + name
}

/// The part of `s` behind the separator at `i` is a dot or two.
pub open spec fn is_dots_behind(s: Seq<char>, i: int) -> bool {
    &&& i + 1 < s.len() && s[i + 1] == '.'
    &&& {
        ||| i + 2 == s.len() || may_separate(s[i + 2])
        ||| s[i + 2] == '.' && (i + 3 == s.len() || may_separate(s[i + 3]))
    }
}

/// A base that is taken literally has nothing in it that joining would tidy up or take
/// for something else than elsewhere: no slash, no two separators in a row and no part
/// of dots alone behind `\\?`, and a name behind `\\?\` or `\\?\UNC\`.
pub open spec fn is_tidy(base: Seq<char>) -> bool {
    &&& base.len() > 4 && may_separate(base[3])
    &&& forall|i: int| 0 <= i < base.len() ==> #[trigger] base[i] != '/'
    &&& forall|i: int|
        3 <= i < base.len() && may_separate(#[trigger] base[i]) ==> !(i + 1 < base.len()
            && may_separate(base[i + 1])) && !is_dots_behind(base, i)
    &&& base.len() == 8 ==> ascii_lower(base.subrange(4, 7)) != seq!['u', 'n', 'c']
}

/// What joining makes of `base` is stated in full here.
pub open spec fn joins_plainly(base: Seq<char>) -> bool {
    !may_be_literal(base) || is_tidy(base)
}

/// What holds of a file name joined to `base`. A base that is taken literally and is
/// not tidy keeps its first three characters, and the name comes last.
pub open spec fn is_join(base: Seq<char>, name: Seq<char>, joined: Seq<char>) -> bool {
    &&& name.is_suffix_of(joined)
    &&& joins_plainly(base) ==> may_be_joined(base, name, joined)
    &&& may_be_literal(base) ==> joined.len() >= 3 && joined.take(3) == base.take(3)
}

/// The extension of a path: `std::path::Path::extension`, with the result as text.
///
/// The contract claims what its documentation says: the extension is what stands
/// behind the last dot of the last part of the path; a name with no dot but at its
/// start has none, and neither has a path that ends in `..` or has no parts. Where the
/// parts begin is left open as [`may_be_prefix`] says.
#[verifier::external_body]
pub(crate) fn extension_of(path: &str) -> (r: Option<String>)
    ensures
        may_be_extension(path@, optional_text(r)),
{
    std::path::Path::new(path).extension().and_then(|e| e.to_str()).map(|e| e.to_owned())
}

/// The parent of a path: `std::path::Path::parent`, with the result as text.
///
/// The contract claims what its documentation says: the parent is the path without its
/// last part, the empty one for a single part, and there is none for a path that is
/// empty or ends in its root or its prefix. Where the parts begin is left open as
/// [`may_be_prefix`] says, and what becomes of a dot behind a drive as [`has_parent`]
/// does.
#[verifier::external_body]
pub(crate) fn parent_of(path: &str) -> (r: Option<String>)
    ensures
        may_be_parent(path@, optional_text(r)),
{
    std::path::Path::new(path).parent().and_then(|p| p.to_str()).map(|p| p.to_owned())
}

/// A path with a file name joined to it: `std::path::Path::join`, with the result as
/// text.
///
/// The contract claims what its documentation says of a relative name: it is put
/// behind the path, with the platform's separator between the two where one is
/// missing. A base that is taken literally may be tidied up on the way. Of one that is
/// not tidy, such as one with a slash, only that the name ends up at the end and that
/// the first three characters stay is claimed.
#[verifier::external_body]
pub(crate) fn join_path(base: &str, name: &str) -> (r: String)
    requires
        is_file_name(name@),
    ensures
        is_join(base@, name@, r@),
{
    std::path::Path::new(base).join(name).to_string_lossy().into_owned()
}

} // verus!
