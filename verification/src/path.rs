//! The name of the temporary file a store writes before it replaces its target.
//!
//! A path is read as `/`-separated text. Empty components and `.` components
//! carry no meaning behind the first position, so `dir/state.json/` and
//! `dir/state.json/.` both name the file `state.json` in `dir`.

use vstd::prelude::*;
use vstd::string::*;

verus! {

/// The separator between the components of a path.
pub const SEPARATOR: char = '/';

/// What is appended to a file's name to name its temporary sibling.
pub const TEMP_SUFFIX: &'static str = ".new";

/// How many leading characters stand before the components that can be
/// dropped or replaced: the root `/`, or a leading `.` that names the
/// current directory.
pub open spec fn body_start(p: Seq<char>) -> int {
    if p.len() > 0 && (p[0] == SEPARATOR || (p[0] == '.' && (p.len() == 1 || p[1] == SEPARATOR))) {
        1
    } else {
        0
    }
}

/// Where the component that ends at `end` begins: behind the last separator
/// in `p[start..end)`, or at `start` if there is none.
pub open spec fn component_start(p: Seq<char>, start: int, end: int) -> int
    decreases end - start,
{
    if end <= start {
        start
    } else if p[end - 1] == SEPARATOR {
        end
    } else {
        component_start(p, start, end - 1)
    }
}

/// The end of the last component of `p[start..end)` that is neither empty
/// nor `.`, or `start` if every component is one of these.
pub open spec fn trimmed_end(p: Seq<char>, start: int, end: int) -> int
    decreases end - start,
{
    if end <= start {
        start
    } else {
        let s = component_start(p, start, end);
        if s == end {
            trimmed_end(p, start, end - 1)
        } else if s == end - 1 && p[s] == '.' {
            trimmed_end(p, start, if s > start { s - 1 } else { s })
        } else {
            end
        }
    }
}

/// Where the last meaningful component of `p` ends.
pub open spec fn name_end(p: Seq<char>) -> int {
    trimmed_end(p, body_start(p), p.len() as int)
}

/// Where the last meaningful component of `p` begins.
pub open spec fn name_start(p: Seq<char>) -> int {
    component_start(p, body_start(p), name_end(p))
}

/// The file name of `p`: its last meaningful component, unless there is none
/// or it is `..`.
pub open spec fn file_name(p: Seq<char>) -> Option<Seq<char>> {
    let name = p.subrange(name_start(p), name_end(p));
    if name_end(p) <= body_start(p) || name == seq!['.', '.'] {
        None
    } else {
        Some(name)
    }
}

/// The length of the prefix of `p` that names the directory of its file name.
pub open spec fn parent_len(p: Seq<char>) -> int {
    let start = body_start(p);
    let s = name_start(p);
    trimmed_end(p, start, if s > start { s - 1 } else { s })
}

/// The part of `p` that names the directory of its file name.
pub open spec fn directory(p: Seq<char>) -> Seq<char> {
    p.take(parent_len(p))
}

/// `name` placed in the directory `dir`.
pub open spec fn joined(dir: Seq<char>, name: Seq<char>) -> Seq<char> {
    if dir.len() > 0 && dir.last() != SEPARATOR {
        dir + seq![SEPARATOR] + name
    } else {
        dir + name
    }
}

/// The path of the temporary sibling of `p`: in the directory of `p`, the
/// file name of `p` followed by the suffix. A path without a file name gets
/// the bare suffix as a name beneath it.
pub open spec fn temp_sibling(p: Seq<char>) -> Seq<char> {
    match file_name(p) {
        Some(name) => joined(directory(p), name + TEMP_SUFFIX@),
        None => joined(p, TEMP_SUFFIX@),
    }
}

proof fn lemma_component_start_bounds(p: Seq<char>, start: int, end: int)
    requires
        0 <= start <= end <= p.len(),
    ensures
        start <= component_start(p, start, end) <= end,
        forall|i: int| component_start(p, start, end) <= i < end ==> p[i] != SEPARATOR,
        component_start(p, start, end) > start ==> p[component_start(p, start, end) - 1]
            == SEPARATOR,
    decreases end - start,
{
    if end > start && p[end - 1] != SEPARATOR {
        lemma_component_start_bounds(p, start, end - 1);
    }
}

proof fn lemma_trimmed_end_bounds(p: Seq<char>, start: int, end: int)
    requires
        0 <= start <= end <= p.len(),
    ensures
        start <= trimmed_end(p, start, end) <= end,
    decreases end - start,
{
    if end > start {
        lemma_component_start_bounds(p, start, end);
        let s = component_start(p, start, end);
        if s == end {
            lemma_trimmed_end_bounds(p, start, end - 1);
        } else if s == end - 1 && p[s] == '.' {
            lemma_trimmed_end_bounds(p, start, if s > start { s - 1 } else { s });
        }
    }
}

proof fn lemma_component_start_is(p: Seq<char>, start: int, s: int, end: int)
    requires
        0 <= start <= s <= end <= p.len(),
        forall|i: int| s <= i < end ==> p[i] != SEPARATOR,
        s == start || p[s - 1] == SEPARATOR,
    ensures
        component_start(p, start, end) == s,
    decreases end - s,
{
    if end > s {
        lemma_component_start_is(p, start, s, end - 1);
    }
}

proof fn lemma_trimmed_end_names(p: Seq<char>, start: int, end: int)
    requires
        0 <= start <= end <= p.len(),
    ensures
        ({
            let e = trimmed_end(p, start, end);
            let s = component_start(p, start, e);
            e > start ==> s < e && !(s == e - 1 && p[s] == '.')
        }),
    decreases end - start,
{
    if end > start {
        lemma_component_start_bounds(p, start, end);
        let s = component_start(p, start, end);
        if s == end {
            lemma_trimmed_end_names(p, start, end - 1);
        } else if s == end - 1 && p[s] == '.' {
            lemma_trimmed_end_names(p, start, if s > start { s - 1 } else { s });
        }
    }
}

/// The suffix is the four characters `.new`, none of them a separator.
pub proof fn lemma_temp_suffix()
    ensures
        TEMP_SUFFIX@ == seq!['.', 'n', 'e', 'w'],
        TEMP_SUFFIX@.len() == 4,
{
    reveal_strlit(".new");
}

/// A file name is never empty and holds no separator.
pub proof fn lemma_file_name_is_one_component(p: Seq<char>)
    requires
        file_name(p) is Some,
    ensures
        file_name(p).unwrap().len() > 0,
        forall|i: int| 0 <= i < file_name(p).unwrap().len() ==> file_name(p).unwrap()[i] != SEPARATOR,
        0 <= parent_len(p) <= name_start(p) < name_end(p) <= p.len(),
{
    let start = body_start(p);
    lemma_trimmed_end_bounds(p, start, p.len() as int);
    lemma_trimmed_end_names(p, start, p.len() as int);
    lemma_component_start_bounds(p, start, name_end(p));
    let s = name_start(p);
    lemma_trimmed_end_bounds(p, start, if s > start { s - 1 } else { s });
}

proof fn lemma_component_start_reads_prefix(p: Seq<char>, r: Seq<char>, start: int, end: int)
    requires
        0 <= start <= end <= p.len(),
        end <= r.len(),
        forall|i: int| 0 <= i < end ==> p[i] == r[i],
    ensures
        component_start(r, start, end) == component_start(p, start, end),
    decreases end - start,
{
    if end > start && p[end - 1] != SEPARATOR {
        lemma_component_start_reads_prefix(p, r, start, end - 1);
    }
}

proof fn lemma_trimmed_end_reads_prefix(p: Seq<char>, r: Seq<char>, start: int, end: int)
    requires
        0 <= start <= end <= p.len(),
        end <= r.len(),
        forall|i: int| 0 <= i < end ==> p[i] == r[i],
    ensures
        trimmed_end(r, start, end) == trimmed_end(p, start, end),
    decreases end - start,
{
    if end > start {
        lemma_component_start_bounds(p, start, end);
        lemma_component_start_reads_prefix(p, r, start, end);
        let s = component_start(p, start, end);
        if s == end {
            lemma_trimmed_end_reads_prefix(p, r, start, end - 1);
        } else if s == end - 1 && p[s] == '.' {
            lemma_trimmed_end_reads_prefix(p, r, start, if s > start { s - 1 } else { s });
        }
    }
}

proof fn lemma_trimmed_end_is_fixed(p: Seq<char>, start: int, end: int)
    requires
        0 <= start <= end <= p.len(),
    ensures
        trimmed_end(p, start, trimmed_end(p, start, end)) == trimmed_end(p, start, end),
    decreases end - start,
{
    if end > start {
        lemma_component_start_bounds(p, start, end);
        let s = component_start(p, start, end);
        if s == end {
            lemma_trimmed_end_is_fixed(p, start, end - 1);
        } else if s == end - 1 && p[s] == '.' {
            lemma_trimmed_end_is_fixed(p, start, if s > start { s - 1 } else { s });
        }
    }
}

/// The temporary sibling is a sibling. Where a path has a file name, its
/// temporary sibling has that name followed by the suffix as its file name,
/// and the same directory.
pub proof fn lemma_temp_sibling_is_sibling(p: Seq<char>)
    requires
        file_name(p) is Some,
    ensures
        file_name(temp_sibling(p)) == Some(file_name(p).unwrap() + TEMP_SUFFIX@),
        directory(temp_sibling(p)) == directory(p),
{
    lemma_temp_suffix();
    lemma_file_name_is_one_component(p);
    let suffix = TEMP_SUFFIX@;
    let name = file_name(p).unwrap();
    let r = temp_sibling(p);
    let start = body_start(p);
    let k = parent_len(p);
    let dir = directory(p);
    // The sibling is the directory, a separator where the directory does not
    // end in one, the name and the suffix.
    let pre = if dir.len() > 0 && dir.last() != SEPARATOR {
        dir + seq![SEPARATOR]
    } else {
        dir
    };
    let at = pre.len() as int;
    let m = r.len() as int;
    assert(r =~= pre + (name + suffix));
    assert forall|i: int| at <= i < m implies r[i] != SEPARATOR by {
        if i < at + name.len() {
            assert(r[i] == name[i - at]);
        } else {
            assert(r[i] == suffix[i - at - name.len()]);
        }
    }
    assert forall|i: int| 0 <= i < k implies r[i] == p[i] by {
        assert(r[i] == dir[i]);
    }
    // What ends the directory is a component with a meaning, unless the
    // directory is no more than the root or the leading dot.
    let s = name_start(p);
    let cut = if s > start { s - 1 } else { s };
    lemma_component_start_bounds(p, start, name_end(p));
    lemma_trimmed_end_bounds(p, start, p.len() as int);
    lemma_trimmed_end_bounds(p, start, cut);
    lemma_trimmed_end_names(p, start, cut);
    lemma_trimmed_end_is_fixed(p, start, cut);
    if k > start {
        lemma_component_start_bounds(p, start, k);
        assert(r[k] == SEPARATOR);
    }
    // Both paths begin alike, so their components begin at the same place.
    assert(body_start(r) == start) by {
        if k == 1 && start == 0 && p[0] == '.' {
            lemma_component_start_is(p, 0, 0, 1);
        }
    }
    assert(at == 0 || r[at - 1] == SEPARATOR);
    // The last component of the sibling is the name with the suffix.
    lemma_component_start_is(r, start, at, m);
    assert(name_end(r) == m && name_start(r) == at);
    assert(r.subrange(at, m) =~= name + suffix);
    assert(file_name(r) == Some(name + suffix));
    // Before it stands the directory, which is trimmed as it was in `p`.
    assert(parent_len(r) == k) by {
        if k > start {
            lemma_trimmed_end_reads_prefix(p, r, start, k);
        }
    }
    assert(directory(r) =~= dir);
}

/// The temporary sibling of a path is never the path itself, so writing the
/// one leaves the other as it was.
pub proof fn lemma_temp_sibling_differs(p: Seq<char>)
    ensures
        temp_sibling(p) != p,
{
    lemma_temp_suffix();
    match file_name(p) {
        None => {
            assert(joined(p, TEMP_SUFFIX@).len() > p.len());
        },
        Some(name) => {
            lemma_temp_sibling_is_sibling(p);
            assert((name + TEMP_SUFFIX@).len() > name.len());
        },
    }
}

fn to_chars(text: &str) -> (chars: Vec<char>)
    ensures
        chars@ == text@,
{
    let mut chars: Vec<char> = Vec::new();
    for c in it: text.chars()
        invariant
            chars@ == it.seq().take(it.index() as int),
            it.seq() == text@,
    {
        chars.push(c);
    }
    chars
}

fn find_body_start(p: &Vec<char>) -> (start: usize)
    ensures
        start == body_start(p@),
        start <= p@.len(),
{
    if p.len() > 0 && (p[0] == SEPARATOR || (p[0] == '.' && (p.len() == 1 || p[1] == SEPARATOR))) {
        1
    } else {
        0
    }
}

fn find_component_start(p: &Vec<char>, start: usize, end: usize) -> (s: usize)
    requires
        start <= end <= p@.len(),
    ensures
        s == component_start(p@, start as int, end as int),
        start <= s <= end,
{
    let mut s: usize = end;
    while s > start && p[s - 1] != SEPARATOR
        invariant
            start <= s <= end <= p@.len(),
            component_start(p@, start as int, end as int) == component_start(
                p@,
                start as int,
                s as int,
            ),
        decreases s,
    {
        s = s - 1;
    }
    s
}

fn find_trimmed_end(p: &Vec<char>, start: usize, end: usize) -> (e: usize)
    requires
        start <= end <= p@.len(),
    ensures
        e == trimmed_end(p@, start as int, end as int),
        start <= e <= end,
{
    let mut e: usize = end;
    loop
        invariant
            start <= e <= end <= p@.len(),
            trimmed_end(p@, start as int, end as int) == trimmed_end(p@, start as int, e as int),
        ensures
            e == trimmed_end(p@, start as int, end as int),
            start <= e <= end,
        decreases e,
    {
        if e <= start {
            break ;
        }
        let s = find_component_start(p, start, e);
        if s == e {
            e = e - 1;
        } else if s == e - 1 && p[s] == '.' {
            e = if s > start { s - 1 } else { s };
        } else {
            break ;
        }
    }
    e
}

/// The path of the temporary file for the target `path`.
pub fn temp_path(path: &str) -> (temp: String)
    ensures
        temp@ == temp_sibling(path@),
{
    let p = to_chars(path);
    let start = find_body_start(&p);
    let e = find_trimmed_end(&p, start, p.len());
    let s = find_component_start(&p, start, e);
    let named = e > start && !(e - s == 2 && p[s] == '.' && p[s + 1] == '.');
    proof {
        assert(p@.subrange(s as int, e as int) == seq!['.', '.'] <==> (e - s == 2 && p@[s as int]
            == '.' && p@[s + 1] == '.')) by {
            let name = p@.subrange(s as int, e as int);
            if e - s == 2 && p@[s as int] == '.' && p@[s + 1] == '.' {
                assert(name =~= seq!['.', '.']);
            }
            if name == seq!['.', '.'] {
                assert(name.len() == 2);
                assert(name[0] == '.' && name[1] == '.');
            }
        }
    }
    if named {
        let k = find_trimmed_end(&p, start, if s > start { s - 1 } else { s });
        let mut temp = String::from_str(path.substring_char(0, k));
        if k > 0 && p[k - 1] != SEPARATOR {
            temp.append("/");
        }
        temp.append(path.substring_char(s, e));
        temp.append(TEMP_SUFFIX);
        proof {
            reveal_strlit("/");
        }
        temp
    } else {
        let mut temp = String::from_str(path);
        if p.len() > 0 && p[p.len() - 1] != SEPARATOR {
            temp.append("/");
        }
        temp.append(TEMP_SUFFIX);
        proof {
            reveal_strlit("/");
        }
        temp
    }
}

} // verus!
