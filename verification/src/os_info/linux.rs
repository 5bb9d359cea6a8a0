//! Linux: the kernel's release and the distribution's name and version.

use crate::text::optional_text;
use crate::os_info::info::OsInfo;
use crate::os_info::info::OsInfoView;
use crate::os_info::info::OsType;
use crate::text::chars_of;
use crate::text::string_of;
use vstd::prelude::*;
use vstd::string::StrSliceExecFns;

verus! {

/// The number of characters before the first line feed, or the length of a text without one.
pub open spec fn first_line_feed(text: Seq<char>) -> int
    decreases text.len(),
{
    if text.len() == 0 || text[0] == '\n' {
        0
    } else {
        1 + first_line_feed(text.skip(1))
    }
}

/// A line without the carriage return that may stand at its end.
pub open spec fn without_carriage_return(line: Seq<char>) -> Seq<char> {
    if line.len() > 0 && line.last() == '\r' {
        line.drop_last()
    } else {
        line
    }
}

/// The lines of a text. A line ends with a line feed, or with a carriage return and a line
/// feed, neither of which belongs to it; the last line needs no line ending, and what stands
/// behind the last line feed is a line only if it is not empty.
pub open spec fn lines(text: Seq<char>) -> Seq<Seq<char>>
    decreases text.len(),
{
    if text.len() == 0 {
        Seq::empty()
    } else {
        let end = first_line_feed(text);
        if 0 <= end < text.len() {
            seq![without_carriage_return(text.take(end))] + lines(text.skip(end + 1))
        } else {
            seq![text]
        }
    }
}

/// Whether a text begins with a prefix.
pub open spec fn starts_with(text: Seq<char>, prefix: Seq<char>) -> bool {
    text.len() >= prefix.len() && text.take(prefix.len() as int) == prefix
}

/// A text without the quotes at its beginning.
pub open spec fn without_leading_quotes(text: Seq<char>) -> Seq<char>
    decreases text.len(),
{
    if text.len() > 0 && text[0] == '"' {
        without_leading_quotes(text.skip(1))
    } else {
        text
    }
}

/// A text without the quotes at its end.
pub open spec fn without_trailing_quotes(text: Seq<char>) -> Seq<char>
    decreases text.len(),
{
    if text.len() > 0 && text.last() == '"' {
        without_trailing_quotes(text.drop_last())
    } else {
        text
    }
}

/// A text without the quotes around it, however many there are on either side.
pub open spec fn unquoted(text: Seq<char>) -> Seq<char> {
    without_trailing_quotes(without_leading_quotes(text))
}

/// What an `os-release` file tells of a distribution.
pub struct Release {
    pub name: Option<Seq<char>>,
    pub version: Option<Seq<char>>,
}

/// What is known after one more line: `NAME=` sets the name and `VERSION=` the version,
/// each time anew; `VERSION_ID=` sets the version only where none is known yet. Quotes
/// around a value are dropped. Every other line is passed over.
pub open spec fn read_line(known: Release, line: Seq<char>) -> Release {
    if starts_with(line, "NAME="@) {
        Release { name: Some(unquoted(line.skip("NAME="@.len() as int))), ..known }
    } else if starts_with(line, "VERSION="@) {
        Release { version: Some(unquoted(line.skip("VERSION="@.len() as int))), ..known }
    } else if starts_with(line, "VERSION_ID="@) && known.version is None {
        Release { version: Some(unquoted(line.skip("VERSION_ID="@.len() as int))), ..known }
    } else {
        known
    }
}

/// What is known after the given lines, read in order.
pub open spec fn read_lines(known: Release, lines: Seq<Seq<char>>) -> Release
    decreases lines.len(),
{
    if lines.len() == 0 {
        known
    } else {
        read_lines(read_line(known, lines[0]), lines.skip(1))
    }
}

/// What an `os-release` file with the given content tells.
pub open spec fn os_release(content: Seq<char>) -> Release {
    read_lines(Release { name: None, version: None }, lines(content))
}

/// The first line feed stands where no line feed stands before.
pub proof fn lemma_first_line_feed(text: Seq<char>, at: int)
    requires
        0 <= at <= text.len(),
        forall|k: int| 0 <= k < at ==> text[k] != '\n',
        at < text.len() ==> text[at] == '\n',
    ensures
        first_line_feed(text) == at,
    decreases at,
{
    if at > 0 {
        let rest = text.skip(1);
        assert forall|k: int| 0 <= k < at - 1 implies rest[k] != '\n' by {
            assert(rest[k] == text[k + 1]);
        }
        lemma_first_line_feed(rest, at - 1);
    }
}

/// Tells whether the characters from `from` up to `to` begin with a prefix.
fn begins_with(chars: &Vec<char>, from: usize, to: usize, prefix: &str) -> (b: bool)
    requires
        from <= to <= chars@.len(),
    ensures
        b == starts_with(chars@.subrange(from as int, to as int), prefix@),
{
    let n = prefix.unicode_len();
    let ghost line = chars@.subrange(from as int, to as int);
    if to - from < n {
        return false;
    }
    let mut i: usize = 0;
    while i < n
        invariant
            i <= n,
            n == prefix@.len(),
            from + n <= to <= chars@.len(),
            line == chars@.subrange(from as int, to as int),
            forall|k: int| 0 <= k < i ==> line[k] == prefix@[k],
        decreases n - i,
    {
        if chars[from + i] != prefix.get_char(i) {
            assert(line.take(n as int)[i as int] != prefix@[i as int]);
            return false;
        }
        i += 1;
    }
    assert(line.take(n as int) =~= prefix@);
    true
}

/// The text from `from` up to `to` without the quotes around it.
fn unquote(chars: &Vec<char>, from: usize, to: usize) -> (text: String)
    requires
        from <= to <= chars@.len(),
    ensures
        text@ == unquoted(chars@.subrange(from as int, to as int)),
{
    let ghost line = chars@.subrange(from as int, to as int);
    let mut lo: usize = from;
    while lo < to && chars[lo] == '"'
        invariant
            from <= lo <= to <= chars@.len(),
            line == chars@.subrange(from as int, to as int),
            without_leading_quotes(line) == without_leading_quotes(
                chars@.subrange(lo as int, to as int),
            ),
        decreases to - lo,
    {
        proof {
            let rest = chars@.subrange(lo as int, to as int);
            assert(rest.skip(1) == chars@.subrange(lo + 1, to as int));
        }
        lo += 1;
    }
    let ghost inner = chars@.subrange(lo as int, to as int);
    assert(without_leading_quotes(line) == inner);
    let mut hi: usize = to;
    while hi > lo && chars[hi - 1] == '"'
        invariant
            lo <= hi <= to <= chars@.len(),
            without_trailing_quotes(inner) == without_trailing_quotes(
                chars@.subrange(lo as int, hi as int),
            ),
        decreases hi - lo,
    {
        proof {
            let rest = chars@.subrange(lo as int, hi as int);
            assert(rest.drop_last() == chars@.subrange(lo as int, hi - 1));
        }
        hi -= 1;
    }
    string_of(chars, lo, hi)
}

/// Reads one line, the characters from `from` up to `to`.
fn read(
    chars: &Vec<char>,
    from: usize,
    to: usize,
    name: &mut Option<String>,
    version: &mut Option<String>,
)
    requires
        from <= to <= chars@.len(),
    ensures
        (Release { name: optional_text(*final(name)), version: optional_text(*final(version)) })
            == read_line(
            Release { name: optional_text(*old(name)), version: optional_text(*old(version)) },
            chars@.subrange(from as int, to as int),
        ),
{
    let ghost line = chars@.subrange(from as int, to as int);
    if begins_with(chars, from, to, "NAME=") {
        let skip = "NAME=".unicode_len();
        assert(line.skip(skip as int) == chars@.subrange(from + skip, to as int));
        *name = Some(unquote(chars, from + skip, to));
    } else if begins_with(chars, from, to, "VERSION=") {
        let skip = "VERSION=".unicode_len();
        assert(line.skip(skip as int) == chars@.subrange(from + skip, to as int));
        *version = Some(unquote(chars, from + skip, to));
    } else if begins_with(chars, from, to, "VERSION_ID=") {
        if version.is_none() {
            let skip = "VERSION_ID=".unicode_len();
            assert(line.skip(skip as int) == chars@.subrange(from + skip, to as int));
            *version = Some(unquote(chars, from + skip, to));
        }
    }
}

/// Reads the content of an `os-release` file: the distribution's name and its version.
pub fn parse_os_release(content: &str) -> (r: (Option<String>, Option<String>))
    ensures
        optional_text(r.0) == os_release(content@).name,
        optional_text(r.1) == os_release(content@).version,
{
    let chars = chars_of(content);
    let mut name: Option<String> = None;
    let mut version: Option<String> = None;
    let mut start: usize = 0;
    let mut i: usize = 0;
    assert(chars@.skip(0) == chars@);
    while i < chars.len()
        invariant
            start <= i <= chars@.len(),
            chars@ == content@,
            forall|k: int| start <= k < i ==> chars@[k] != '\n',
            os_release(content@) == read_lines(
                Release { name: optional_text(name), version: optional_text(version) },
                lines(chars@.skip(start as int)),
            ),
        decreases chars.len() - i,
    {
        if chars[i] == '\n' {
            let end = if i > start && chars[i - 1] == '\r' {
                i - 1
            } else {
                i
            };
            proof {
                let rest = chars@.skip(start as int);
                let line = rest.take(i - start);
                lemma_first_line_feed(rest, i - start);
                assert(line == chars@.subrange(start as int, i as int));
                assert(without_carriage_return(line) == chars@.subrange(start as int, end as int));
                assert(rest.skip(i - start + 1) == chars@.skip(i + 1));
                let all = lines(rest);
                assert(all[0] == without_carriage_return(line));
                assert(all.skip(1) == lines(chars@.skip(i + 1)));
            }
            read(&chars, start, end, &mut name, &mut version);
            start = i + 1;
        }
        i += 1;
    }
    let ghost known = Release { name: optional_text(name), version: optional_text(version) };
    proof {
        let rest = chars@.skip(start as int);
        if start < chars.len() {
            assert forall|k: int| 0 <= k < rest.len() implies rest[k] != '\n' by {
                assert(rest[k] == chars@[start + k]);
            }
            lemma_first_line_feed(rest, rest.len() as int);
            assert(rest == chars@.subrange(start as int, chars@.len() as int));
            let all = lines(rest);
            assert(all == seq![rest]);
            assert(all[0] == rest);
            assert(all.skip(1) == Seq::<Seq<char>>::empty());
            assert(read_lines(known, all) == read_lines(read_line(known, rest), all.skip(1)));
            assert(os_release(content@) == read_line(known, rest));
        } else {
            assert(rest.len() == 0);
            assert(os_release(content@) == known);
        }
    }
    if start < chars.len() {
        read(&chars, start, chars.len(), &mut name, &mut version);
    }
    (name, version)
}

/// What is known of a Linux system, from the kernel's release, the machine's architecture
/// and what the distribution tells of its name and version: the version is the
/// distribution's where it tells one, and the kernel's release otherwise.
pub fn linux_info(release: String, machine: String, distro: (Option<String>, Option<String>)) -> (info:
    OsInfo)
    ensures
        info@ == (OsInfoView {
            os_type: OsType::Linux,
            version: match distro.1 {
                Some(version) => version@,
                None => release@,
            },
            release: Some(release@),
            edition: optional_text(distro.0),
            architecture: machine@,
        }),
{
    let (distro_name, distro_version) = distro;
    let version = match distro_version {
        Some(version) => version,
        None => release.clone(),
    };
    OsInfo {
        os_type: OsType::Linux,
        version,
        release: Some(release),
        edition: distro_name,
        architecture: machine,
    }
}

} // verus!
