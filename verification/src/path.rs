//! Splitting a path at its last slash.
use vstd::prelude::*;
use vstd::string::StrSliceExecFns;

verus! {

/// The index of the last `c` in `s`, or -1 where `s` holds none.
pub open spec fn last_index_of(s: Seq<char>, c: char) -> int
    decreases s.len(),
{
    if s.len() == 0 {
        -1
    } else if s.last() == c {
        s.len() - 1
    } else {
        last_index_of(s.drop_last(), c)
    }
}

/// `last_index_of` finds an occurrence exactly where there is one, and none
/// comes after it.
pub proof fn lemma_last_index_of(s: Seq<char>, c: char)
    ensures
        -1 <= last_index_of(s, c) < s.len(),
        last_index_of(s, c) >= 0 ==> s[last_index_of(s, c)] == c,
        forall|j: int| last_index_of(s, c) < j < s.len() ==> s[j] != c,
        last_index_of(s, c) >= 0 <==> s.contains(c),
    decreases s.len(),
{
    if s.len() > 0 {
        lemma_last_index_of(s.drop_last(), c);
        if s.last() != c {
            assert forall|j: int| last_index_of(s, c) < j < s.len() implies s[j] != c by {
                if j < s.len() - 1 {
                    assert(s.drop_last()[j] == s[j]);
                }
            }
            if s.contains(c) {
                let j = choose|j: int| 0 <= j < s.len() && s[j] == c;
                assert(s.drop_last()[j] == c);
            }
        }
    }
}

proof fn lemma_last_index_of_extend(s: Seq<char>, c: char, i: int)
    requires 0 <= i < s.len(),
    ensures
        last_index_of(s.subrange(0, i + 1), c) == if s[i] == c { i } else { last_index_of(s.subrange(0, i), c) },
{
    assert(s.subrange(0, i + 1).drop_last() =~= s.subrange(0, i));
}

/// The name a path ends in: what follows its last slash, or the whole path
/// where it holds no slash.
pub open spec fn spec_path_name(path: Seq<char>) -> Seq<char> {
    path.subrange(last_index_of(path, '/') + 1, path.len() as int)
}

/// The directory a path's last name lies in: where the path holds no slash,
/// the empty path; where everything before the last slash holds no slash,
/// the root `/`; otherwise everything before the last slash.
pub open spec fn spec_path_parent(path: Seq<char>) -> Seq<char> {
    let k = last_index_of(path, '/');
    if k < 0 {
        Seq::<char>::empty()
    } else if last_index_of(path.subrange(0, k), '/') < 0 {
        seq!['/']
    } else {
        path.subrange(0, k)
    }
}

/// The index of the last slash in `s`, where it has one.
pub fn last_slash(s: &str) -> (r: Option<usize>)
    ensures
        r is None <==> last_index_of(s@, '/') < 0,
        r matches Some(k) ==> k == last_index_of(s@, '/'),
{
    let n = s.unicode_len();
    let mut last: Option<usize> = None;
    let mut i: usize = 0;
    while i < n
        invariant
            i <= n,
            n == s@.len(),
            match last {
                Some(k) => k == last_index_of(s@.subrange(0, i as int), '/'),
                None => last_index_of(s@.subrange(0, i as int), '/') < 0,
            },
        decreases n - i,
    {
        proof { lemma_last_index_of_extend(s@, '/', i as int); }
        if s.get_char(i) == '/' {
            last = Some(i);
        }
        i = i + 1;
    }
    assert(s@.subrange(0, n as int) =~= s@);
    last
}

/// Whether `s` holds a slash.
pub fn contains_slash(s: &str) -> (r: bool)
    ensures r == s@.contains('/'),
{
    proof { lemma_last_index_of(s@, '/'); }
    last_slash(s).is_some()
}

/// Splits a path into the directory its last name lies in and that name
/// (see `spec_path_parent` and `spec_path_name`).
pub fn split_parent(path: &str) -> (r: (String, String))
    ensures
        r.0@ == spec_path_parent(path@),
        r.1@ == spec_path_name(path@),
{
    proof { lemma_last_index_of(path@, '/'); }
    let n = path.unicode_len();
    match last_slash(path) {
        None => {
            let name = String::from_str(path.substring_char(0, n));
            assert(path@.subrange(0, n as int) =~= path@);
            (String::new(), name)
        },
        Some(k) => {
            let name = String::from_str(path.substring_char(k + 1, n));
            let prefix = path.substring_char(0, k);
            let parent = if last_slash(prefix).is_none() {
                proof { reveal_strlit("/"); }
                String::from_str("/")
            } else {
                String::from_str(prefix)
            };
            (parent, name)
        },
    }
}

/// The name a path ends in holds no slash; where the path holds a slash and
/// more than one before its name, the directory, a slash and the name make
/// up the path again.
pub proof fn law_split_rejoins(path: Seq<char>)
    ensures
        !spec_path_name(path).contains('/'),
        last_index_of(path, '/') < 0 ==> spec_path_name(path) == path && spec_path_parent(path) == Seq::<char>::empty(),
        last_index_of(path, '/') >= 0 && last_index_of(path.subrange(0, last_index_of(path, '/')), '/') >= 0
            ==> spec_path_parent(path) + seq!['/'] + spec_path_name(path) == path,
{
    lemma_last_index_of(path, '/');
    let k = last_index_of(path, '/');
    let name = spec_path_name(path);
    if name.contains('/') {
        let j = choose|j: int| 0 <= j < name.len() && name[j] == '/';
        assert(path[k + 1 + j] == '/');
    }
    if k < 0 {
        assert(name =~= path);
    } else {
        lemma_last_index_of(path.subrange(0, k), '/');
        if last_index_of(path.subrange(0, k), '/') >= 0 {
            assert(spec_path_parent(path) + seq!['/'] + name =~= path);
        }
    }
}

} // verus!
