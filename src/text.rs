//! Path text: file names, extensions and joins, over the characters of a path.
use vstd::prelude::*;
use vstd::string::*;

verus! {

/// Both slash kinds separate path components.
pub open spec fn is_separator(c: char) -> bool {
    c == '/' || c == '\\'
}

/// Index of the last separator in `p`, or -1 when there is none.
pub open spec fn last_separator(p: Seq<char>) -> int
    decreases p.len(),
{
    if p.len() == 0 {
        -1
    } else if is_separator(p.last()) {
        p.len() - 1
    } else {
        last_separator(p.drop_last())
    }
}

/// Index of the last `.` in `s`, or -1 when there is none.
pub open spec fn last_dot(s: Seq<char>) -> int
    decreases s.len(),
{
    if s.len() == 0 {
        -1
    } else if s.last() == '.' {
        s.len() - 1
    } else {
        last_dot(s.drop_last())
    }
}

/// The last component of a path: the text after its last separator.
pub open spec fn file_name_of(p: Seq<char>) -> Seq<char> {
    p.subrange(last_separator(p) + 1, p.len() as int)
}

/// The extension of a file name: the text after its last dot, when that dot
/// is not the name's first character.
pub open spec fn extension_of(name: Seq<char>) -> Option<Seq<char>> {
    if last_dot(name) <= 0 {
        None
    } else {
        Some(name.subrange(last_dot(name) + 1, name.len() as int))
    }
}

/// The extension of the file a path names.
pub open spec fn path_extension(p: Seq<char>) -> Option<Seq<char>> {
    extension_of(file_name_of(p))
}

proof fn lemma_last_separator_bounds(p: Seq<char>)
    ensures
        -1 <= last_separator(p) < p.len(),
    decreases p.len(),
{
    if p.len() > 0 && !is_separator(p.last()) {
        lemma_last_separator_bounds(p.drop_last());
    }
}

proof fn lemma_last_dot_bounds(s: Seq<char>)
    ensures
        -1 <= last_dot(s) < s.len(),
    decreases s.len(),
{
    if s.len() > 0 && s.last() != '.' {
        lemma_last_dot_bounds(s.drop_last());
    }
}

/// Whether two texts hold the same characters.
pub fn same_text(a: &str, b: &str) -> (r: bool)
    ensures
        r == (a@ == b@),
{
    let n = a.unicode_len();
    if n != b.unicode_len() {
        return false;
    }
    let mut i: usize = 0;
    while i < n
        invariant
            n == a@.len(),
            n == b@.len(),
            i <= n,
            forall|j: int| 0 <= j < i ==> a@[j] == b@[j],
        decreases n - i,
    {
        if a.get_char(i) != b.get_char(i) {
            return false;
        }
        i = i + 1;
    }
    assert(a@ =~= b@);
    true
}

/// Whether `e` is one of the texts in `list`.
pub fn text_in(list: &Vec<String>, e: &str) -> (r: bool)
    ensures
        r == list@.map_values(|s: String| s@).contains(e@),
{
    let ghost ts = list@.map_values(|s: String| s@);
    let mut i: usize = 0;
    while i < list.len()
        invariant
            i <= list@.len(),
            ts == list@.map_values(|s: String| s@),
            forall|j: int| 0 <= j < i ==> ts[j] != e@,
        decreases list@.len() - i,
    {
        if same_text(list[i].as_str(), e) {
            assert(ts[i as int] == e@);
            return true;
        }
        i = i + 1;
    }
    false
}

/// Position just past the last separator of `p`.
fn name_start(p: &str) -> (r: usize)
    ensures
        r as int == last_separator(p@) + 1,
        r <= p@.len(),
{
    let n = p.unicode_len();
    let mut start: usize = 0;
    let mut i: usize = 0;
    while i < n
        invariant
            n == p@.len(),
            i <= n,
            start as int == last_separator(p@.subrange(0, i as int)) + 1,
        decreases n - i,
    {
        let ghost pre = p@.subrange(0, i as int);
        let ghost next = p@.subrange(0, i as int + 1);
        assert(next.drop_last() =~= pre);
        if is_sep(p.get_char(i)) {
            start = i + 1;
        }
        i = i + 1;
    }
    assert(p@.subrange(0, n as int) =~= p@);
    proof {
        lemma_last_separator_bounds(p@);
    }
    start
}

fn is_sep(c: char) -> (r: bool)
    ensures
        r == is_separator(c),
{
    c == '/' || c == '\\'
}

/// Index just past the last dot of `s`, or 0 when it holds none.
fn dot_end(s: &str) -> (r: usize)
    ensures
        r as int == last_dot(s@) + 1,
        r <= s@.len(),
{
    let n = s.unicode_len();
    let mut end: usize = 0;
    let mut i: usize = 0;
    while i < n
        invariant
            n == s@.len(),
            i <= n,
            end as int == last_dot(s@.subrange(0, i as int)) + 1,
        decreases n - i,
    {
        let ghost pre = s@.subrange(0, i as int);
        let ghost next = s@.subrange(0, i as int + 1);
        assert(next.drop_last() =~= pre);
        if s.get_char(i) == '.' {
            end = i + 1;
        }
        i = i + 1;
    }
    assert(s@.subrange(0, n as int) =~= s@);
    proof {
        lemma_last_dot_bounds(s@);
    }
    end
}

/// The last component of a path.
pub fn file_name(p: &str) -> (r: &str)
    ensures
        r@ == file_name_of(p@),
{
    let start = name_start(p);
    let n = p.unicode_len();
    p.substring_char(start, n)
}

/// The extension of the file that a path names, if it has one.
pub fn extension(p: &str) -> (r: Option<&str>)
    ensures
        match r {
            Some(e) => path_extension(p@) == Some(e@),
            None => path_extension(p@) is None,
        },
{
    let name = file_name(p);
    let end = dot_end(name);
    if end <= 1 {
        None
    } else {
        let n = name.unicode_len();
        Some(name.substring_char(end, n))
    }
}

} // verus!
