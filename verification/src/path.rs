//! Where an archive entry is written, and whether that place is safe.
//!
//! An entry's name loses its first segment, the folder that wraps the whole
//! archive, and what is left is joined to the target directory. What is left
//! must stay below the target directory: it may not be absolute, and read
//! segment by segment it may never step above the directory it started in,
//! neither where `/` alone parts the segments nor where `\` parts them too.

use vstd::prelude::*;
use vstd::string::*;

use crate::error::PipelineError;
use crate::platform::Variant;
use crate::text::chars_of;

verus! {

/// What a path segment does to the depth below the starting directory.
#[derive(Clone, Copy, Debug, PartialEq, Eq, Structural)]
pub enum SegmentKind {
    /// An empty segment or `.`: the depth stays.
    Stay,
    /// `..`: one level up.
    Up,
    /// Any other segment: one level down.
    Down,
}

/// `/` and `\` both part the segments of a path.
pub open spec fn is_separator(c: char) -> bool {
    c == '/' || c == '\\'
}

/// Number of characters of `text` before the first one that `stop` holds
/// of; the length of `text` where it holds of none.
pub open spec fn first_stop(text: Seq<char>, stop: spec_fn(char) -> bool) -> int
    decreases text.len(),
{
    if text.len() == 0 || stop(text[0]) {
        0
    } else {
        1 + first_stop(text.drop_first(), stop)
    }
}

/// What ends the first segment of an entry's name: `/`, the separator that
/// the archive format knows.
pub open spec fn slash_stop() -> spec_fn(char) -> bool {
    |c: char| c == '/'
}

/// What parts the segments of a path: `/` alone, as on Unix, or `/` and
/// `\` both, as on Windows.
pub open spec fn parts_at(both: bool) -> spec_fn(char) -> bool {
    |c: char| c == '/' || (both && c == '\\')
}

/// Position of the first `/` of `name`; its length where it has none.
pub open spec fn first_slash(name: Seq<char>) -> int {
    first_stop(name, slash_stop())
}

/// An entry's name without its first segment: what follows the first `/`.
/// A name without `/` has no folder in front and is kept whole.
pub open spec fn without_root(name: Seq<char>) -> Seq<char> {
    let k = first_slash(name);
    if 0 <= k < name.len() {
        name.skip(k + 1)
    } else {
        name
    }
}

/// The segments of `path`: the texts between its separators, which are `/`
/// alone or, with `both`, `/` and `\`.
pub open spec fn segments(path: Seq<char>, both: bool) -> Seq<Seq<char>>
    decreases path.len(),
{
    let end = first_stop(path, parts_at(both));
    if 0 <= end < path.len() {
        seq![path.take(end)] + segments(path.skip(end + 1), both)
    } else {
        seq![path]
    }
}

/// What `segment` does to the depth.
pub open spec fn classify(segment: Seq<char>) -> SegmentKind {
    if segment.len() == 0 || segment == seq!['.'] {
        SegmentKind::Stay
    } else if segment == seq!['.', '.'] {
        SegmentKind::Up
    } else {
        SegmentKind::Down
    }
}

/// The depth reached after the segments `parts`, read in order from `depth`
/// levels below the starting directory; `None` where a `..` is met at depth
/// 0, that is where the path steps above the starting directory.
pub open spec fn climb(parts: Seq<Seq<char>>, depth: nat) -> Option<nat>
    decreases parts.len(),
{
    if parts.len() == 0 {
        Some(depth)
    } else {
        match classify(parts[0]) {
            SegmentKind::Stay => climb(parts.drop_first(), depth),
            SegmentKind::Down => climb(parts.drop_first(), depth + 1),
            SegmentKind::Up => if depth == 0 {
                None
            } else {
                climb(parts.drop_first(), (depth - 1) as nat)
            },
        }
    }
}

/// A path that begins with a separator names a place from the root.
pub open spec fn is_absolute(path: Seq<char>) -> bool {
    path.len() > 0 && is_separator(path[0])
}

/// Read segment by segment, `path` steps above the directory it starts in.
pub open spec fn climbs_out(path: Seq<char>, both: bool) -> bool {
    climb(segments(path, both), 0) is None
}

/// Joined to a directory, `path` would name a place outside of it: it is
/// absolute, or it steps above the directory, be it with `/` alone parting
/// its segments or with `\` parting them too.
pub open spec fn escapes(path: Seq<char>) -> bool {
    is_absolute(path) || climbs_out(path, false) || climbs_out(path, true)
}

/// `relative` below `directory`.
pub open spec fn joined(directory: Seq<char>, relative: Seq<char>) -> Seq<char> {
    directory + seq!['/'] + relative
}

/// Where the entry called `name` is written below `target`, or the refusal of
/// an entry that would leave `target`.
pub open spec fn entry_destination(target: Seq<char>, name: Seq<char>) -> Result<
    Seq<char>,
    PipelineError,
> {
    if escapes(without_root(name)) {
        Err(PipelineError::UnsafeArchiveEntry)
    } else {
        Ok(joined(target, without_root(name)))
    }
}

/// The directory that holds one install: below the application's data
/// directory, by variant and then by version.
pub open spec fn instance_directory(app_data: Seq<char>, variant: Variant, version: Seq<char>) -> Seq<
    char,
> {
    app_data + "/Godot Manager/Instances/"@ + variant.directory_name() + seq!['/'] + version
}

/// `first_stop` is the position `k` where `stop` holds of no character
/// before `k` and `k` is the end of the text or a character that `stop`
/// holds of.
pub proof fn lemma_first_stop(text: Seq<char>, stop: spec_fn(char) -> bool, k: int)
    requires
        0 <= k <= text.len(),
        forall|j: int| 0 <= j < k ==> !stop(#[trigger] text[j]),
        k == text.len() || stop(text[k]),
    ensures
        first_stop(text, stop) == k,
    decreases text.len(),
{
    if k > 0 {
        let rest = text.drop_first();
        assert forall|j: int| 0 <= j < k - 1 implies !stop(#[trigger] rest[j]) by {
            assert(rest[j] == text[j + 1]);
        }
        if k < text.len() {
            assert(rest[k - 1] == text[k]);
        }
        lemma_first_stop(rest, stop, k - 1);
    }
}

/// The segments of a path whose first separator stands at `k`: the text
/// before `k`, then the segments of what follows `k`.
pub proof fn lemma_segments_at_separator(path: Seq<char>, both: bool, k: int)
    requires
        0 <= k < path.len(),
        forall|j: int| 0 <= j < k ==> !parts_at(both)(#[trigger] path[j]),
        parts_at(both)(path[k]),
    ensures
        segments(path, both) == seq![path.take(k)] + segments(path.skip(k + 1), both),
{
    lemma_first_stop(path, parts_at(both), k);
}

/// A path without a separator is one segment.
pub proof fn lemma_segments_of_one(path: Seq<char>, both: bool)
    requires
        forall|j: int| 0 <= j < path.len() ==> !parts_at(both)(#[trigger] path[j]),
    ensures
        segments(path, both) == seq![path],
{
    lemma_first_stop(path, parts_at(both), path.len() as int);
}

/// Reading `first` and then `rest` from `depth`: `first` moves the depth, or
/// steps out where it is `..` at depth 0, and `rest` is read from there.
pub proof fn lemma_climb_first(first: Seq<char>, rest: Seq<Seq<char>>, depth: nat)
    ensures
        climb(seq![first] + rest, depth) == match classify(first) {
            SegmentKind::Stay => climb(rest, depth),
            SegmentKind::Down => climb(rest, depth + 1),
            SegmentKind::Up => if depth == 0 {
                None
            } else {
                climb(rest, (depth - 1) as nat)
            },
        },
{
    let parts = seq![first] + rest;
    assert(parts[0] == first);
    assert(parts.drop_first() =~= rest);
}

/// Segments without a `..` among them never step out, from whatever depth.
pub proof fn lemma_climb_without_parent(parts: Seq<Seq<char>>, depth: nat)
    requires
        forall|i: int| 0 <= i < parts.len() ==> classify(#[trigger] parts[i]) != SegmentKind::Up,
    ensures
        climb(parts, depth) is Some,
    decreases parts.len(),
{
    if parts.len() > 0 {
        let rest = parts.drop_first();
        assert forall|i: int| 0 <= i < rest.len() implies classify(#[trigger] rest[i])
            != SegmentKind::Up by {
            assert(rest[i] == parts[i + 1]);
        }
        if classify(parts[0]) == SegmentKind::Down {
            lemma_climb_without_parent(rest, depth + 1);
        } else {
            lemma_climb_without_parent(rest, depth);
        }
    }
}

/// A path is refused where it is absolute.
pub proof fn law_absolute_path_escapes(path: Seq<char>)
    requires
        path.len() > 0,
        is_separator(path[0]),
    ensures
        escapes(path),
{
}

/// A path is refused where its first segment is `..`, whatever parts the
/// segments.
pub proof fn law_leading_parent_escapes(path: Seq<char>, both: bool)
    requires
        segments(path, both).len() > 0,
        segments(path, both)[0] == seq!['.', '.'],
    ensures
        escapes(path),
{
    assert(seq!['.', '.'].len() == 2);
    assert(seq!['.', '.'] != seq!['.']) by {
        assert(seq!['.'].len() == 1);
    }
}

/// A relative path without a `..` among its segments stays inside.
pub proof fn law_path_without_parent_stays_inside(path: Seq<char>)
    requires
        !is_absolute(path),
        forall|both: bool, i: int|
            0 <= i < segments(path, both).len() ==> #[trigger] segments(path, both)[i] != seq![
                '.',
                '.',
            ],
    ensures
        !escapes(path),
{
    assert forall|both: bool| !climbs_out(path, both) by {
        let parts = segments(path, both);
        assert forall|i: int| 0 <= i < parts.len() implies classify(#[trigger] parts[i])
            != SegmentKind::Up by {
            assert(segments(path, both)[i] != seq!['.', '.']);
        }
        lemma_climb_without_parent(parts, 0);
    }
}

/// The folder that wraps an archive is stripped: an entry called `root`,
/// `/`, `rest`, where `root` holds no `/`, is `rest` without its root, and
/// where `rest` stays inside it is written at `target`, `/`, `rest`.
pub proof fn law_common_root_is_stripped(target: Seq<char>, root: Seq<char>, rest: Seq<char>)
    requires
        forall|j: int| 0 <= j < root.len() ==> #[trigger] root[j] != '/',
    ensures
        without_root(root + seq!['/'] + rest) == rest,
        !escapes(rest) ==> entry_destination(target, root + seq!['/'] + rest) == Ok::<
            Seq<char>,
            PipelineError,
        >(target + seq!['/'] + rest),
{
    let name = root + seq!['/'] + rest;
    assert forall|j: int| 0 <= j < root.len() implies !slash_stop()(#[trigger] name[j]) by {
        assert(name[j] == root[j]);
    }
    assert(name[root.len() as int] == '/');
    lemma_first_stop(name, slash_stop(), root.len() as int);
    assert(name.skip(root.len() as int + 1) =~= rest);
}

/// A name without `/` has no root to strip: it is kept whole.
pub proof fn law_name_without_slash_is_kept(name: Seq<char>)
    requires
        forall|j: int| 0 <= j < name.len() ==> #[trigger] name[j] != '/',
    ensures
        without_root(name) == name,
{
    assert forall|j: int| 0 <= j < name.len() implies !slash_stop()(#[trigger] name[j]) by {}
    lemma_first_stop(name, slash_stop(), name.len() as int);
}

/// Every place that an entry is given lies below the target: it is the
/// target, a `/`, and a relative path that stays inside. An entry is refused
/// exactly where what is left of its name would leave the target.
pub proof fn law_entry_stays_below_target(target: Seq<char>, name: Seq<char>)
    ensures
        match entry_destination(target, name) {
            Ok(path) => {
                &&& !escapes(without_root(name))
                &&& path == target + seq!['/'] + without_root(name)
                &&& (target + seq!['/']).is_prefix_of(path)
            },
            Err(e) => e == PipelineError::UnsafeArchiveEntry && escapes(without_root(name)),
        },
{
    let path = joined(target, without_root(name));
    assert(path.subrange(0, (target + seq!['/']).len() as int) =~= target + seq!['/']);
}

fn is_separator_char(c: char) -> (r: bool)
    ensures
        r == is_separator(c),
{
    c == '/' || c == '\\'
}

fn parts_segments(c: char, both: bool) -> (r: bool)
    ensures
        r == parts_at(both)(c),
{
    c == '/' || (both && c == '\\')
}

/// What the segment `chars[start..end]` does to the depth.
fn classify_segment(chars: &Vec<char>, start: usize, end: usize) -> (kind: SegmentKind)
    requires
        start <= end <= chars.len(),
    ensures
        kind == classify(chars@.subrange(start as int, end as int)),
{
    let ghost segment = chars@.subrange(start as int, end as int);
    let len: usize = end - start;
    assert(segment.len() == len);
    assert(seq!['.'].len() == 1 && seq!['.'][0] == '.');
    assert(seq!['.', '.'].len() == 2 && seq!['.', '.'][0] == '.' && seq!['.', '.'][1] == '.');
    if len == 0 {
        SegmentKind::Stay
    } else if len == 1 {
        if chars[start] == '.' {
            assert(segment =~= seq!['.']);
            SegmentKind::Stay
        } else {
            assert(segment[0] != '.');
            SegmentKind::Down
        }
    } else if len == 2 {
        if chars[start] == '.' && chars[start + 1] == '.' {
            assert(segment =~= seq!['.', '.']);
            SegmentKind::Up
        } else {
            assert(segment[0] != '.' || segment[1] != '.');
            SegmentKind::Down
        }
    } else {
        SegmentKind::Down
    }
}

/// An entry's name without its first segment.
pub fn strip_root<'a>(name: &'a str) -> (rest: &'a str)
    ensures
        rest@ == without_root(name@),
{
    let chars = chars_of(name);
    let mut i: usize = 0;
    while i < chars.len() && chars[i] != '/'
        invariant
            i <= chars.len(),
            forall|j: int| 0 <= j < i ==> !slash_stop()(#[trigger] chars@[j]),
        decreases chars.len() - i,
    {
        i = i + 1;
    }
    proof {
        lemma_first_stop(chars@, slash_stop(), i as int);
    }
    if i < chars.len() {
        let rest = name.substring_char(i + 1, chars.len());
        assert(rest@ =~= name@.skip(i + 1));
        rest
    } else {
        name
    }
}

/// Whether the path of `chars`, read segment by segment, steps above the
/// directory it starts in.
fn steps_out(chars: &Vec<char>, both: bool) -> (r: bool)
    ensures
        r == climbs_out(chars@, both),
{
    let n: usize = chars.len();
    let mut depth: usize = 0;
    let mut seg_start: usize = 0;
    let mut pos: usize = 0;
    assert(chars@.skip(0) =~= chars@);
    while pos < n
        invariant
            n == chars.len(),
            seg_start <= pos <= n,
            depth <= seg_start,
            forall|k: int| seg_start <= k < pos ==> !parts_at(both)(#[trigger] chars@[k]),
            climb(segments(chars@, both), 0) == climb(
                segments(chars@.skip(seg_start as int), both),
                depth as nat,
            ),
        decreases n - pos,
    {
        if parts_segments(chars[pos], both) {
            let kind = classify_segment(chars, seg_start, pos);
            proof {
                let rest = chars@.skip(seg_start as int);
                let k = pos - seg_start;
                assert forall|j: int| 0 <= j < k implies !parts_at(both)(#[trigger] rest[j]) by {
                    assert(rest[j] == chars@[seg_start + j]);
                }
                assert(rest[k] == chars@[pos as int]);
                lemma_segments_at_separator(rest, both, k);
                assert(rest.take(k) =~= chars@.subrange(seg_start as int, pos as int));
                assert(rest.skip(k + 1) =~= chars@.skip(pos + 1));
                lemma_climb_first(rest.take(k), segments(rest.skip(k + 1), both), depth as nat);
            }
            match kind {
                SegmentKind::Stay => {},
                SegmentKind::Down => {
                    depth = depth + 1;
                },
                SegmentKind::Up => {
                    if depth == 0 {
                        return true;
                    }
                    depth = depth - 1;
                },
            }
            seg_start = pos + 1;
        }
        pos = pos + 1;
    }
    let kind = classify_segment(chars, seg_start, n);
    proof {
        let rest = chars@.skip(seg_start as int);
        assert forall|j: int| 0 <= j < rest.len() implies !parts_at(both)(#[trigger] rest[j]) by {
            assert(rest[j] == chars@[seg_start + j]);
        }
        lemma_segments_of_one(rest, both);
        assert(rest =~= chars@.subrange(seg_start as int, n as int));
        lemma_climb_first(rest, Seq::<Seq<char>>::empty(), depth as nat);
        assert(seq![rest] + Seq::<Seq<char>>::empty() =~= seq![rest]);
    }
    match kind {
        SegmentKind::Up => depth == 0,
        _ => false,
    }
}

/// Whether `path`, joined to a directory, would name a place outside of it.
pub fn escapes_directory(path: &str) -> (r: bool)
    ensures
        r == escapes(path@),
{
    let chars = chars_of(path);
    if chars.len() > 0 && is_separator_char(chars[0]) {
        return true;
    }
    steps_out(&chars, false) || steps_out(&chars, true)
}

/// The path of the entry called `name` below `target`.
///
/// An entry whose name, without its first segment, would leave `target` is
/// refused; every other entry gets its place below `target`.
pub fn entry_path(target: &str, name: &str) -> (place: Result<String, PipelineError>)
    ensures
        match place {
            Ok(path) => entry_destination(target@, name@) == Ok::<Seq<char>, PipelineError>(path@),
            Err(e) => entry_destination(target@, name@) == Err::<Seq<char>, PipelineError>(e),
        },
{
    let rest = strip_root(name);
    if escapes_directory(rest) {
        return Err(PipelineError::UnsafeArchiveEntry);
    }
    let mut path = String::from_str(target);
    path.append("/");
    path.append(rest);
    proof {
        reveal_strlit("/");
        assert("/"@ =~= seq!['/']);
    }
    Ok(path)
}

/// The directory of the install of `version` in `variant`, below the
/// application's data directory `app_data`.
pub fn instance_dir(app_data: &str, variant: Variant, version: &str) -> (dir: String)
    ensures
        dir@ == instance_directory(app_data@, variant, version@),
{
    let mut dir = String::from_str(app_data);
    dir.append("/Godot Manager/Instances/");
    dir.append(variant.directory());
    dir.append("/");
    dir.append(version);
    proof {
        reveal_strlit("/");
        assert("/"@ =~= seq!['/']);
    }
    dir
}

} // verus!
