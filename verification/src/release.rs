//! Finding the archive of the native library among the releases of a
//! repository, with the checksum that the notes of the release give for it.
//!
//! The notes of a release list the checksums of its archives under a
//! heading, between two fences of three backticks, one archive on a line:
//! the checksum, a space, a `*` and the file name.

use vstd::prelude::*;
use vstd::string::StringSliceAdditionalSpecFns;

use crate::bytes::{bytes_equal, copy_range, slice_of, str_equal};

verus! {

/// The byte of a line feed.
pub const LINE_FEED: u8 = 10;

/// The byte of a carriage return.
pub const CARRIAGE_RETURN: u8 = 13;

/// The byte of a space.
pub const SPACE: u8 = 32;

/// The byte `*`.
pub const STAR: u8 = 42;

/// The byte of a backtick.
pub const BACKTICK: u8 = 96;

/// Whether a byte is ASCII white space.
pub open spec fn is_space(byte: u8) -> bool {
    byte == SPACE || (9 <= byte <= 13)
}

/// The heading of the list of checksums.
pub open spec fn heading() -> Seq<u8> {
    "## SHA256 Checksums".spec_bytes()
}

/// The fence in front of the list and behind it.
pub open spec fn fence() -> Seq<u8> {
    seq![BACKTICK, BACKTICK, BACKTICK]
}

/// Whether `pattern` stands in `text` at position `at`.
pub open spec fn has_at(text: Seq<u8>, at: int, pattern: Seq<u8>) -> bool {
    0 <= at && at + pattern.len() <= text.len() && text.subrange(at, at + pattern.len())
        == pattern
}

/// The position of the first `byte` in `text` from `from` up to `to`, or
/// `to` where there is none.
pub open spec fn find_from(text: Seq<u8>, byte: u8, from: int, to: int) -> int
    decreases to - from,
{
    if from >= to {
        to
    } else if text[from] == byte {
        from
    } else {
        find_from(text, byte, from + 1, to)
    }
}

/// The position of the first byte in `text` from `from` up to `to` that is
/// no white space, or `to` where there is none.
pub open spec fn skip_spaces(text: Seq<u8>, from: int, to: int) -> int
    decreases to - from,
{
    if from >= to {
        to
    } else if !is_space(text[from]) {
        from
    } else {
        skip_spaces(text, from + 1, to)
    }
}

/// The position behind the last byte in `text` from `from` up to `to` that
/// is no white space, or `from` where there is none.
pub open spec fn skip_spaces_back(text: Seq<u8>, from: int, to: int) -> int
    decreases to - from,
{
    if from >= to {
        from
    } else if !is_space(text[to - 1]) {
        to
    } else {
        skip_spaces_back(text, from, to - 1)
    }
}

/// The checksum that the line of `text` from `from` up to `to` gives for
/// the file `filename`, as the range of the checksum in `text`.
///
/// The line is taken without the white space at its ends and split at its
/// spaces. It gives a checksum for the file if its second part is a `*`
/// followed by the file name; the checksum is then its first part, without
/// white space at its end.
pub open spec fn line_checksum(text: Seq<u8>, from: int, to: int, filename: Seq<u8>) -> Option<
    (int, int),
> {
    let start = skip_spaces(text, from, to);
    let end = skip_spaces_back(text, start, to);
    let space = find_from(text, SPACE, start, end);
    if space >= end {
        None
    } else {
        let next = find_from(text, SPACE, space + 1, end);
        if space + 1 < next && text[space + 1] == STAR && text.subrange(space + 2, next)
            == filename {
            Some((start, skip_spaces_back(text, start, space)))
        } else {
            None
        }
    }
}

/// The checksum that the first line of `text` from `from` up to `to` which
/// gives one for the file `filename` gives for it. Lines end at line feeds.
pub open spec fn list_checksum(text: Seq<u8>, from: int, to: int, filename: Seq<u8>) -> Option<
    (int, int),
>
    decreases to - from,
{
    let end = find_from(text, LINE_FEED, from, to);
    match line_checksum(text, from, end, filename) {
        Some(range) => Some(range),
        None => if from <= end < to {
            list_checksum(text, end + 1, to, filename)
        } else {
            None
        },
    }
}

/// The list of checksums whose heading stands at `start`, as the range of
/// the list in `notes`: the heading, a line break (a line feed, with or
/// without a carriage return in front), a fence, the list, which holds no
/// backtick, and a fence.
pub open spec fn list_at(notes: Seq<u8>, start: int) -> Option<(int, int)> {
    let after = start + heading().len();
    if !has_at(notes, start, heading()) {
        None
    } else {
        let opening = if after < notes.len() && notes[after] == LINE_FEED {
            after + 1
        } else if after + 1 < notes.len() && notes[after] == CARRIAGE_RETURN && notes[after + 1]
            == LINE_FEED {
            after + 2
        } else {
            -1
        };
        if opening < 0 || !has_at(notes, opening, fence()) {
            None
        } else {
            let from = opening + 3;
            let to = find_from(notes, BACKTICK, from, notes.len() as int);
            if has_at(notes, to, fence()) {
                Some((from, to))
            } else {
                None
            }
        }
    }
}

/// The first list of checksums in `notes` whose heading stands at `start`
/// or behind it.
pub open spec fn first_list(notes: Seq<u8>, start: int) -> Option<(int, int)>
    decreases notes.len() - start,
{
    if start >= notes.len() {
        None
    } else {
        match list_at(notes, start) {
            Some(range) => Some(range),
            None => first_list(notes, start + 1),
        }
    }
}

/// What the notes of a release say of a file.
#[derive(Clone, Copy, Debug, PartialEq, Eq, Structural)]
pub enum Listed {
    /// The notes hold no list of checksums.
    NoList,
    /// The list of checksums does not hold the file.
    NotListed,
    /// The checksum of the file stands in the notes from the first position
    /// up to the second.
    Checksum(usize, usize),
}

/// What `notes` say of the file `filename`: the answer of `find_checksum`.
pub open spec fn listed(notes: Seq<u8>, filename: Seq<u8>) -> Listed {
    match first_list(notes, 0) {
        None => Listed::NoList,
        Some((from, to)) => {
            let start = skip_spaces(notes, from, to);
            let end = skip_spaces_back(notes, start, to);
            match list_checksum(notes, start, end, filename) {
                None => Listed::NotListed,
                Some((first, last)) => Listed::Checksum(first as usize, last as usize),
            }
        },
    }
}

/// Finds the first `byte` in `text` from `from` up to `to`.
pub fn find_byte(text: &[u8], byte: u8, from: usize, to: usize) -> (at: usize)
    requires
        from <= to <= text@.len(),
    ensures
        at == find_from(text@, byte, from as int, to as int),
        from <= at <= to,
        at < to ==> text@[at as int] == byte,
        forall|k: int| from <= k < at ==> text@[k] != byte,
{
    let mut at: usize = from;
    while at < to && text[at] != byte
        invariant
            from <= at <= to <= text@.len(),
            find_from(text@, byte, from as int, to as int) == find_from(
                text@,
                byte,
                at as int,
                to as int,
            ),
            forall|k: int| from <= k < at ==> text@[k] != byte,
        decreases to - at,
    {
        at += 1;
    }
    at
}

/// Whether a byte is ASCII white space.
pub fn is_space_byte(byte: u8) -> (space: bool)
    ensures
        space == is_space(byte),
{
    byte == SPACE || (9 <= byte && byte <= 13)
}

/// Finds the first byte in `text` from `from` up to `to` that is no white
/// space.
pub fn trim_start(text: &[u8], from: usize, to: usize) -> (at: usize)
    requires
        from <= to <= text@.len(),
    ensures
        at == skip_spaces(text@, from as int, to as int),
        from <= at <= to,
{
    let mut at: usize = from;
    while at < to && is_space_byte(text[at])
        invariant
            from <= at <= to <= text@.len(),
            skip_spaces(text@, from as int, to as int) == skip_spaces(text@, at as int, to as int),
        decreases to - at,
    {
        at += 1;
    }
    at
}

/// Finds the position behind the last byte in `text` from `from` up to `to`
/// that is no white space.
pub fn trim_end(text: &[u8], from: usize, to: usize) -> (at: usize)
    requires
        from <= to <= text@.len(),
    ensures
        at == skip_spaces_back(text@, from as int, to as int),
        from <= at <= to,
{
    let mut at: usize = to;
    while at > from && is_space_byte(text[at - 1])
        invariant
            from <= at <= to <= text@.len(),
            skip_spaces_back(text@, from as int, to as int) == skip_spaces_back(
                text@,
                from as int,
                at as int,
            ),
        decreases at - from,
    {
        at -= 1;
    }
    at
}

/// Whether `pattern` stands in `text` at position `at`.
pub fn stands_at(text: &[u8], at: usize, pattern: &[u8]) -> (found: bool)
    ensures
        found == has_at(text@, at as int, pattern@),
{
    let len: usize = text.len();
    if at > len || pattern.len() > len - at {
        return false;
    }
    let mut i: usize = 0;
    while i < pattern.len()
        invariant
            i <= pattern@.len(),
            len == text@.len(),
            at + pattern@.len() <= len,
            forall|k: int| 0 <= k < i ==> text@[at + k] == pattern@[k],
        decreases pattern@.len() - i,
    {
        if text[at + i] != pattern[i] {
            assert(text@.subrange(at as int, at + pattern@.len())[i as int] != pattern@[i as int]);
            return false;
        }
        i += 1;
    }
    assert(text@.subrange(at as int, at + pattern@.len()) =~= pattern@);
    true
}

/// Reads the line of `text` from `from` up to `to`, and returns the range of
/// the checksum that it gives for the file `filename`, if it gives one.
pub fn checksum_in_line(text: &[u8], from: usize, to: usize, filename: &[u8]) -> (range: Option<
    (usize, usize),
>)
    requires
        from <= to <= text@.len(),
    ensures
        range is Some <==> line_checksum(text@, from as int, to as int, filename@) is Some,
        range is Some ==> range.unwrap().0 == line_checksum(
            text@,
            from as int,
            to as int,
            filename@,
        ).unwrap().0 && range.unwrap().1 == line_checksum(
            text@,
            from as int,
            to as int,
            filename@,
        ).unwrap().1,
        range is Some ==> from <= range.unwrap().0 <= range.unwrap().1 <= to,
{
    let start: usize = trim_start(text, from, to);
    let end: usize = trim_end(text, start, to);
    let space: usize = find_byte(text, SPACE, start, end);
    if space >= end {
        return None;
    }
    let next: usize = find_byte(text, SPACE, space + 1, end);
    if space + 1 < next && text[space + 1] == STAR {
        let name = slice_of(text, space + 2, next);
        if bytes_equal(name, filename) {
            return Some((start, trim_end(text, start, space)));
        }
    }
    None
}

/// Reads the lines of `text` from `from` up to `to` in turn, and returns the
/// range of the checksum that the first line which gives one for the file
/// `filename` gives for it.
pub fn checksum_in_list(text: &[u8], from: usize, to: usize, filename: &[u8]) -> (range: Option<
    (usize, usize),
>)
    requires
        from <= to <= text@.len(),
    ensures
        range is Some <==> list_checksum(text@, from as int, to as int, filename@) is Some,
        range is Some ==> range.unwrap().0 == list_checksum(
            text@,
            from as int,
            to as int,
            filename@,
        ).unwrap().0 && range.unwrap().1 == list_checksum(
            text@,
            from as int,
            to as int,
            filename@,
        ).unwrap().1,
        range is Some ==> from <= range.unwrap().0 <= range.unwrap().1 <= to,
{
    let mut line: usize = from;
    loop
        invariant
            from <= line <= to <= text@.len(),
            list_checksum(text@, from as int, to as int, filename@) == list_checksum(
                text@,
                line as int,
                to as int,
                filename@,
            ),
        decreases to - line,
    {
        let end: usize = find_byte(text, LINE_FEED, line, to);
        match checksum_in_line(text, line, end, filename) {
            Some(range) => {
                return Some(range);
            },
            None => {},
        }
        if end >= to {
            return None;
        }
        line = end + 1;
    }
}

/// Reads the list of checksums whose heading stands at `start`, and returns
/// the range of the list.
pub fn read_list_at(notes: &[u8], start: usize) -> (range: Option<(usize, usize)>)
    requires
        start <= notes@.len(),
    ensures
        range is Some <==> list_at(notes@, start as int) is Some,
        range is Some ==> range.unwrap().0 == list_at(notes@, start as int).unwrap().0
            && range.unwrap().1 == list_at(notes@, start as int).unwrap().1,
        range is Some ==> range.unwrap().0 <= range.unwrap().1 <= notes@.len(),
{
    let title = "## SHA256 Checksums".as_bytes();
    if !stands_at(notes, start, title) {
        return None;
    }
    let len: usize = notes.len();
    let after: usize = start + title.len();
    let opening: usize = if after < len && notes[after] == LINE_FEED {
        after + 1
    } else if after < len && after + 1 < len && notes[after] == CARRIAGE_RETURN && notes[after
        + 1] == LINE_FEED {
        after + 2
    } else {
        return None;
    };
    let ticks: [u8; 3] = [BACKTICK, BACKTICK, BACKTICK];
    assert(ticks@ =~= fence());
    if !stands_at(notes, opening, ticks.as_slice()) {
        return None;
    }
    let from: usize = opening + 3;
    let to: usize = find_byte(notes, BACKTICK, from, len);
    if stands_at(notes, to, ticks.as_slice()) {
        Some((from, to))
    } else {
        None
    }
}

/// Finds what the notes of a release say of the file `filename`: the
/// checksum that the first list of checksums in the notes gives for it.
pub fn find_checksum(notes: &[u8], filename: &[u8]) -> (answer: Listed)
    ensures
        answer == listed(notes@, filename@),
        answer matches Listed::Checksum(first, last) ==> first <= last <= notes@.len(),
{
    let len: usize = notes.len();
    let mut start: usize = 0;
    while start < len
        invariant
            start <= len,
            len == notes@.len(),
            first_list(notes@, 0) == first_list(notes@, start as int),
        decreases len - start,
    {
        match read_list_at(notes, start) {
            Some((from, to)) => {
                let first: usize = trim_start(notes, from, to);
                let last: usize = trim_end(notes, first, to);
                return match checksum_in_list(notes, first, last, filename) {
                    Some((a, b)) => Listed::Checksum(a, b),
                    None => Listed::NotListed,
                };
            },
            None => {},
        }
        start += 1;
    }
    Listed::NoList
}

/// A file of a release.
#[derive(Clone, Debug)]
pub struct Asset {
    /// The name of the file.
    pub name: String,
    /// The address from which the file is downloaded.
    pub url: String,
}

/// A release of a repository.
#[derive(Clone, Debug)]
pub struct Release {
    /// The name of the release.
    pub name: Option<String>,
    /// The notes of the release.
    pub body: Option<String>,
    /// The files of the release.
    pub assets: Vec<Asset>,
}

/// An archive to download: its address, and the checksum that its content
/// has to have, in hexadecimal.
#[derive(Clone, Debug, PartialEq, Eq)]
pub struct ArchiveSource {
    pub sha256: Vec<u8>,
    pub url: String,
}

/// The position of the first file with the name `filename` among `assets`
/// from position `from` on.
pub open spec fn first_asset(assets: Seq<Asset>, filename: Seq<char>, from: int) -> Option<int>
    decreases assets.len() - from,
{
    if from < 0 || from >= assets.len() {
        None
    } else if assets[from].name@ == filename {
        Some(from)
    } else {
        first_asset(assets, filename, from + 1)
    }
}

/// Whether a release is one of the native library: it has the name
/// `libfreenect2`, and it has notes.
pub open spec fn holds_library(release: Release) -> bool {
    &&& release.name is Some
    &&& release.name.unwrap()@ == "libfreenect2"@
    &&& release.body is Some
}

/// The notes of a release, as bytes.
pub open spec fn notes_of(release: Release) -> Seq<u8> {
    vstd::utf8::encode_utf8(release.body.unwrap()@)
}

/// The archive with the name `filename` in the releases from position
/// `from` on: the position of its release, the range of its checksum in
/// the notes of that release, and its position among the files of the
/// release.
///
/// The releases are tried in turn. A release that is not one of the native
/// library is passed over, and so is one whose notes do not list the file
/// or which does not hold the file. Notes without a list of checksums end
/// the search.
pub open spec fn source_in(releases: Seq<Release>, filename: Seq<char>, from: int) -> Option<
    (int, int, int, int),
>
    decreases releases.len() - from,
{
    if from < 0 || from >= releases.len() {
        None
    } else if !holds_library(releases[from]) {
        source_in(releases, filename, from + 1)
    } else {
        match listed(notes_of(releases[from]), vstd::utf8::encode_utf8(filename)) {
            Listed::NoList => None,
            Listed::NotListed => source_in(releases, filename, from + 1),
            Listed::Checksum(first, last) => match first_asset(
                releases[from].assets@,
                filename,
                0,
            ) {
                Some(asset) => Some((from, first as int, last as int, asset)),
                None => source_in(releases, filename, from + 1),
            },
        }
    }
}

/// Finds the first file with the name `filename` among `assets`.
pub fn find_asset(assets: &Vec<Asset>, filename: &str) -> (at: Option<usize>)
    ensures
        at is Some <==> first_asset(assets@, filename@, 0) is Some,
        at is Some ==> at.unwrap() == first_asset(assets@, filename@, 0).unwrap() && at.unwrap()
            < assets@.len(),
{
    let mut i: usize = 0;
    while i < assets.len()
        invariant
            i <= assets@.len(),
            first_asset(assets@, filename@, 0) == first_asset(assets@, filename@, i as int),
        decreases assets@.len() - i,
    {
        if str_equal(assets[i].name.as_str(), filename) {
            return Some(i);
        }
        i += 1;
    }
    None
}

/// Finds the archive with the name `filename` in the releases of a
/// repository, and the checksum that the notes of its release give for it.
pub fn get_sha256_for_filename(releases: &Vec<Release>, filename: &str) -> (source: Option<
    ArchiveSource,
>)
    ensures
        source is Some <==> source_in(releases@, filename@, 0) is Some,
        source is Some ==> {
            let (release, first, last, asset) = source_in(releases@, filename@, 0).unwrap();
            &&& 0 <= release < releases@.len()
            &&& 0 <= first <= last <= notes_of(releases@[release]).len()
            &&& 0 <= asset < releases@[release].assets@.len()
            &&& source.unwrap().sha256@ == notes_of(releases@[release]).subrange(first, last)
            &&& source.unwrap().url@ == releases@[release].assets@[asset].url@
        },
{
    let mut i: usize = 0;
    while i < releases.len()
        invariant
            i <= releases@.len(),
            source_in(releases@, filename@, 0) == source_in(releases@, filename@, i as int),
        decreases releases@.len() - i,
    {
        let release = &releases[i];
        let named = match &release.name {
            Some(name) => str_equal(name.as_str(), "libfreenect2"),
            None => false,
        };
        if named {
            match &release.body {
                Some(body) => {
                    let notes = body.as_str().as_bytes();
                    match find_checksum(notes, filename.as_bytes()) {
                        Listed::NoList => {
                            return None;
                        },
                        Listed::NotListed => {},
                        Listed::Checksum(first, last) => {
                            match find_asset(&release.assets, filename) {
                                Some(asset) => {
                                    let sha256 = copy_range(notes, first, last);
                                    let url = release.assets[asset].url.clone();
                                    return Some(ArchiveSource { sha256, url });
                                },
                                None => {},
                            }
                        },
                    }
                },
                None => {},
            }
        }
        i += 1;
    }
    None
}

} // verus!
