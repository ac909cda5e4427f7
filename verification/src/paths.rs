//! Slash-separated paths, treated purely as text.
//!
//! Nothing here touches the file system. A path is a sequence of characters
//! in which `/` separates segments. Separators and `.` segments at the end
//! of a path do not count: the *file name* of a path is the segment before
//! them, unless that segment is `.` or `..` or there is none.

use vstd::prelude::*;
use vstd::string::StringExecFns;
use vstd::string::StrSliceExecFns;

verus! {

/// Index at which the final segment of `path` begins: just behind the last
/// `/`, or 0 when there is none.
pub open spec fn segment_start(path: Seq<char>) -> int
    decreases path.len(),
{
    if path.len() == 0 {
        0
    } else if path.last() == '/' {
        path.len() as int
    } else {
        segment_start(path.drop_last())
    }
}

/// The text behind the last `/` of `path`.
pub open spec fn final_segment(path: Seq<char>) -> Seq<char> {
    path.subrange(segment_start(path), path.len() as int)
}

/// Index behind the last segment that counts: what follows it is made of
/// separators and of `.` segments alone. It is 0 where no segment counts.
pub open spec fn name_end(path: Seq<char>) -> int
    decreases path.len(),
{
    if path.len() == 0 {
        0
    } else if path.last() == '/' {
        name_end(path.drop_last())
    } else if path.last() == '.' && path.len() >= 2 && path[path.len() - 2] == '/' {
        name_end(path.drop_last())
    } else {
        path.len() as int
    }
}

/// The path without the separators and `.` segments at its end.
pub open spec fn trimmed(path: Seq<char>) -> Seq<char> {
    path.take(name_end(path))
}

/// Whether `segment` names a file: it is neither empty nor one of the two
/// directory links `.` and `..`.
pub open spec fn is_file_name(segment: Seq<char>) -> bool {
    &&& segment.len() > 0
    &&& segment != seq!['.']
    &&& segment != seq!['.', '.']
}

/// The last segment that counts, which is the file name if the path has
/// one.
pub open spec fn last_name(path: Seq<char>) -> Seq<char> {
    final_segment(trimmed(path))
}

/// Whether the path has a file name.
pub open spec fn has_file_name(path: Seq<char>) -> bool {
    is_file_name(last_name(path))
}

/// Position of the dot that introduces the extension of `name`: the last
/// dot of the name, provided it is not the name's first character.
pub open spec fn extension_dot(name: Seq<char>) -> Option<int>
    decreases name.len(),
{
    if name.len() <= 1 {
        None
    } else if name.last() == '.' {
        Some(name.len() - 1)
    } else {
        extension_dot(name.drop_last())
    }
}

/// The extension of a file name: what follows its extension dot.
pub open spec fn extension(name: Seq<char>) -> Option<Seq<char>> {
    match extension_dot(name) {
        Some(dot) => Some(name.subrange(dot + 1, name.len() as int)),
        None => None,
    }
}

/// The file name without its extension and the dot before it.
pub open spec fn file_stem(name: Seq<char>) -> Seq<char> {
    match extension_dot(name) {
        Some(dot) => name.subrange(0, dot),
        None => name,
    }
}

/// `path` with the extension of its file name replaced by `new_extension`,
/// and without what followed the file name. A path without a file name is
/// left as it is.
pub open spec fn with_extension(path: Seq<char>, new_extension: Seq<char>) -> Seq<char> {
    if has_file_name(path) {
        trimmed(path).subrange(0, segment_start(trimmed(path))) + file_stem(last_name(path))
            + seq!['.'] + new_extension
    } else {
        path
    }
}

/// The extension of the path's file name, empty where there is none.
pub open spec fn extension_or_empty(path: Seq<char>) -> Seq<char> {
    if has_file_name(path) {
        match extension(last_name(path)) {
            Some(ext) => ext,
            None => Seq::empty(),
        }
    } else {
        Seq::empty()
    }
}

/// Where the precompressed sibling of `path` lives: the same path with
/// `.gz` appended to the extension of its file name.
pub open spec fn gz_sibling(path: Seq<char>) -> Seq<char> {
    with_extension(path, extension_or_empty(path) + seq!['.', 'g', 'z'])
}

/// `relative` resolved against `base`. A `relative` that begins with `/`
/// stands on its own; otherwise the two are joined by exactly one `/`.
pub open spec fn joined(base: Seq<char>, relative: Seq<char>) -> Seq<char> {
    if relative.len() > 0 && relative[0] == '/' {
        relative
    } else if base.len() == 0 {
        relative
    } else if base.last() == '/' {
        base + relative
    } else {
        base + seq!['/'] + relative
    }
}

/// The extension dot of a name lies inside the name, is a dot, is not the
/// first character, and no dot follows it.
pub proof fn lemma_extension_dot(name: Seq<char>)
    ensures
        match extension_dot(name) {
            Some(dot) => {
                &&& 0 < dot < name.len()
                &&& name[dot] == '.'
                &&& forall|j: int| dot < j < name.len() ==> name[j] != '.'
            },
            None => forall|j: int| 0 < j < name.len() ==> name[j] != '.',
        },
    decreases name.len(),
{
    if name.len() > 1 && name.last() != '.' {
        let shorter = name.drop_last();
        lemma_extension_dot(shorter);
        assert(forall|j: int| 0 <= j < shorter.len() ==> shorter[j] == name[j]);
    }
}

/// The final segment holds no `/`, and is preceded by one unless it starts
/// the path.
pub proof fn lemma_segment_start(path: Seq<char>)
    ensures
        0 <= segment_start(path) <= path.len(),
        segment_start(path) > 0 ==> path[segment_start(path) - 1] == '/',
        forall|j: int| segment_start(path) <= j < path.len() ==> path[j] != '/',
    decreases path.len(),
{
    if path.len() > 0 && path.last() != '/' {
        let shorter = path.drop_last();
        lemma_segment_start(shorter);
        assert(forall|j: int| 0 <= j < shorter.len() ==> shorter[j] == path[j]);
    }
}

/// The last segment that counts ends inside the path, and not in a
/// separator.
pub proof fn lemma_name_end(path: Seq<char>)
    ensures
        0 <= name_end(path) <= path.len(),
        name_end(path) > 0 ==> path[name_end(path) - 1] != '/',
    decreases path.len(),
{
    if path.len() > 0 {
        let ends_in_dot_segment = path.last() == '.' && path.len() >= 2 && path[path.len() - 2]
            == '/';
        if path.last() == '/' || ends_in_dot_segment {
            lemma_name_end(path.drop_last());
        }
    }
}

/// For a path with a file name, the precompressed sibling is the path up
/// to the end of the file name, followed by `.gz` when the name has an
/// extension, and by `..gz` when it has none.
pub proof fn lemma_gz_sibling_appends(path: Seq<char>)
    requires
        has_file_name(path),
    ensures
        extension_dot(last_name(path)) is Some ==> gz_sibling(path) == trimmed(path) + seq![
            '.',
            'g',
            'z',
        ],
        extension_dot(last_name(path)) is None ==> gz_sibling(path) == trimmed(path) + seq![
            '.',
            '.',
            'g',
            'z',
        ],
{
    let whole = trimmed(path);
    lemma_segment_start(whole);
    let name = last_name(path);
    lemma_extension_dot(name);
    let gz = seq!['.', 'g', 'z'];
    match extension_dot(name) {
        Some(dot) => {
            assert(gz_sibling(path) =~= whole + gz);
        },
        None => {
            assert(gz_sibling(path) =~= whole + seq!['.', '.', 'g', 'z']);
        },
    }
}

/// Scanning a path from the left: how the start of the final segment moves
/// when one more character is read.
proof fn lemma_segment_start_step(path: Seq<char>, i: int)
    requires
        0 <= i < path.len(),
    ensures
        segment_start(path.take(i + 1)) == if path[i] == '/' {
            i + 1
        } else {
            segment_start(path.take(i))
        },
{
    let longer = path.take(i + 1);
    assert(longer.last() == path[i]);
    assert(longer.drop_last() =~= path.take(i));
}

/// Where the last segment that counts ends, for a path whose final
/// segment is not empty: behind that segment, unless it is a `.` that does
/// not begin the path, which does not count.
proof fn lemma_name_end_of_segment(path: Seq<char>)
    requires
        path.len() > 0,
        path.last() != '/',
    ensures
        name_end(path) == if path.len() - segment_start(path) == 1 && path.last() == '.'
            && segment_start(path) > 0 {
            name_end(path.take(segment_start(path)))
        } else {
            path.len() as int
        },
{
    lemma_segment_start(path);
    let shorter = path.drop_last();
    if path.last() == '.' && path.len() >= 2 && path[path.len() - 2] == '/' {
        assert(shorter.last() == '/');
        assert(segment_start(path) == segment_start(shorter));
        assert(shorter =~= path.take(segment_start(path)));
    }
}

/// Scanning a path from the left: where the last segment that counts
/// ends once the segment from `start` to `i` has been read in full.
proof fn lemma_name_end_step(path: Seq<char>, start: int, i: int)
    requires
        0 <= start <= i <= path.len(),
        start == segment_start(path.take(i)),
    ensures
        name_end(path.take(i)) == if i == start {
            name_end(path.take(start))
        } else if i - start == 1 && path[start] == '.' && start > 0 {
            name_end(path.take(start))
        } else {
            i
        },
        i < path.len() && path[i] == '/' ==> name_end(path.take(i + 1)) == name_end(path.take(i)),
{
    let read = path.take(i);
    if i > start {
        lemma_segment_start(read);
        lemma_name_end_of_segment(read);
        assert(read.take(start) =~= path.take(start));
        assert(read.last() == path[i - 1]);
    } else {
        assert(read =~= path.take(start));
    }
    if i < path.len() && path[i] == '/' {
        let longer = path.take(i + 1);
        assert(longer.last() == '/');
        assert(longer.drop_last() =~= read);
    }
}

/// What a scan has to know of the last segment that counts in order to
/// tell whether it is a file name and whether it has an extension.
proof fn lemma_name_described(
    path: Seq<char>,
    start: int,
    end: int,
    dotted: bool,
    only_dots: bool,
)
    requires
        end == name_end(path),
        0 <= start <= end,
        end > 0 ==> start == segment_start(path.take(end)),
        dotted == (exists|j: int| start < j < end && path[j] == '.'),
        only_dots == (forall|j: int| start <= j < end ==> path[j] == '.'),
    ensures
        end <= path.len(),
        has_file_name(path) == (end - start > 0 && !(only_dots && end - start <= 2)),
        has_file_name(path) ==> dotted == (extension_dot(last_name(path)) is Some),
{
    lemma_name_end(path);
    let whole = trimmed(path);
    let name = last_name(path);
    lemma_segment_start(whole);
    lemma_extension_dot(name);
    if end > 0 {
        assert(forall|j: int| 0 <= j < name.len() ==> name[j] == path[start + j]);
        if dotted {
            let j = choose|j: int| start < j < end && path[j] == '.';
            assert(name[j - start] == '.');
        }
        if extension_dot(name) is Some {
            let dot = extension_dot(name).unwrap();
            assert(path[start + dot] == '.');
        }
        if only_dots && 1 <= name.len() <= 2 {
            assert(name[0] == '.');
            if name.len() == 2 {
                assert(name[1] == '.');
                assert(name =~= seq!['.', '.']);
            } else {
                assert(name =~= seq!['.']);
            }
        }
        if name =~= seq!['.'] || name =~= seq!['.', '.'] {
            assert(forall|j: int| start <= j < end ==> path[j] == name[j - start]);
        }
    }
}

/// Computes the precompressed sibling of `path`.
pub fn gz_path(path: &str) -> (gz: String)
    ensures
        gz@ == gz_sibling(path@),
        has_file_name(path@) && extension_dot(last_name(path@)) is Some ==> gz@ == trimmed(path@)
            + ".gz"@,
        has_file_name(path@) && extension_dot(last_name(path@)) is None ==> gz@ == trimmed(path@)
            + "..gz"@,
        !has_file_name(path@) ==> gz@ == path@,
{
    let total = path.unicode_len();
    let mut i: usize = 0;
    // The segment being read: where it starts, whether a dot stands behind
    // its first character, and whether it holds dots only.
    let mut start: usize = 0;
    let mut dotted = false;
    let mut only_dots = true;
    // The same of the last segment that counts among those read in full.
    let mut name_start: usize = 0;
    let mut name_end: usize = 0;
    let mut name_dotted = false;
    let mut name_only_dots = true;
    for c in it: path.chars()
        invariant
            it.seq() == path@,
            i == it.index(),
            total == path@.len(),
            start <= i,
            start == segment_start(path@.take(i as int)),
            dotted == (exists|j: int| start < j < i && path@[j] == '.'),
            only_dots == (forall|j: int| start <= j < i ==> path@[j] == '.'),
            name_end == self::name_end(path@.take(start as int)),
            name_start <= name_end <= start,
            name_end > 0 ==> name_start == segment_start(path@.take(name_end as int)),
            name_dotted == (exists|j: int| name_start < j < name_end && path@[j] == '.'),
            name_only_dots == (forall|j: int| name_start <= j < name_end ==> path@[j] == '.'),
    {
        proof {
            lemma_segment_start_step(path@, i as int);
            lemma_name_end_step(path@, start as int, i as int);
        }
        if c == '/' {
            if i > start && !(only_dots && i - start == 1 && start > 0) {
                name_start = start;
                name_end = i;
                name_dotted = dotted;
                name_only_dots = only_dots;
            }
            start = i + 1;
            dotted = false;
            only_dots = true;
        } else {
            if c == '.' {
                if i > start {
                    dotted = true;
                }
            } else {
                only_dots = false;
            }
        }
        i = i + 1;
    }
    proof {
        assert(path@.take(i as int) =~= path@);
        lemma_name_end_step(path@, start as int, i as int);
    }
    if i > start && !(only_dots && i - start == 1 && start > 0) {
        name_start = start;
        name_end = i;
        name_dotted = dotted;
        name_only_dots = only_dots;
    }
    proof {
        lemma_name_described(
            path@,
            name_start as int,
            name_end as int,
            name_dotted,
            name_only_dots,
        );
        reveal_strlit(".gz");
        reveal_strlit("..gz");
        if has_file_name(path@) {
            lemma_gz_sibling_appends(path@);
        }
        assert(".gz"@ =~= seq!['.', 'g', 'z']);
        assert("..gz"@ =~= seq!['.', '.', 'g', 'z']);
    }
    let length = name_end - name_start;
    let named = length > 0 && !(name_only_dots && length <= 2);
    if !named {
        String::from_str(path)
    } else {
        let whole = String::from_str(path.substring_char(0, name_end));
        assert(whole@ =~= trimmed(path@));
        if name_dotted {
            whole.concat(".gz")
        } else {
            whole.concat("..gz")
        }
    }
}

/// Resolves `relative` against `base`.
pub fn join(base: &str, relative: &str) -> (path: String)
    ensures
        path@ == joined(base@, relative@),
{
    let relative_len = relative.unicode_len();
    let base_len = base.unicode_len();
    if relative_len > 0 && relative.get_char(0) == '/' {
        String::from_str(relative)
    } else if base_len == 0 {
        String::from_str(relative)
    } else if base.get_char(base_len - 1) == '/' {
        String::from_str(base).concat(relative)
    } else {
        proof {
            reveal_strlit("/");
            assert("/"@ =~= seq!['/']);
        }
        String::from_str(base).concat("/").concat(relative)
    }
}

} // verus!
