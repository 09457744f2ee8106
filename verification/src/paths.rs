//! Path logic: deriving an identifier from a file name's stem, and
//! building the output paths of character pages and the index page.

use vstd::prelude::*;

verus! {

/// Index of the last `'.'` in `s`, or `-1` when `s` holds none.
pub open spec fn last_dot(s: Seq<char>) -> int
    decreases s.len(),
{
    if s.len() == 0 {
        -1
    } else if s[s.len() - 1] == '.' {
        s.len() - 1
    } else {
        last_dot(s.drop_last())
    }
}

/// The stem of a file name: everything before the last `'.'`. A name
/// without a dot, or whose only dot leads it (a hidden file), is its own
/// stem.
pub open spec fn stem_of(s: Seq<char>) -> Seq<char> {
    if last_dot(s) <= 0 {
        s
    } else {
        s.take(last_dot(s))
    }
}

/// The output path of one character page: `<dir>/<id>.html`.
pub open spec fn page_path_of(dir: Seq<char>, id: Seq<char>) -> Seq<char> {
    dir + "/"@ + id + ".html"@
}

/// The output path of the index page: `<dir>/index.html`.
pub open spec fn index_path_of(dir: Seq<char>) -> Seq<char> {
    dir + "/index.html"@
}

/// The destination of one mirrored entry: `<base>/<rel>`.
pub open spec fn joined_path(base: Seq<char>, rel: Seq<char>) -> Seq<char> {
    base + "/"@ + rel
}

/// `last_dot` ignores a dot-free suffix: dropping trailing characters that
/// are not `'.'` leaves it unchanged.
proof fn lemma_last_dot_at(s: Seq<char>, k: int)
    requires
        0 <= k < s.len(),
        s[k] == '.',
        forall|j: int| k < j < s.len() ==> s[j] != '.',
    ensures
        last_dot(s) == k,
    decreases s.len(),
{
    if k == s.len() - 1 {
    } else {
        assert(s.drop_last()[k] == '.');
        lemma_last_dot_at(s.drop_last(), k);
    }
}

/// A name without any dot has no last dot.
proof fn lemma_no_dot(s: Seq<char>)
    requires
        forall|j: int| 0 <= j < s.len() ==> s[j] != '.',
    ensures
        last_dot(s) == -1,
    decreases s.len(),
{
    if s.len() > 0 {
        lemma_no_dot(s.drop_last());
    }
}

/// `last_dot` stays inside the name: it is `-1` or a valid index.
proof fn lemma_last_dot_range(s: Seq<char>)
    ensures
        -1 <= last_dot(s) < s.len(),
    decreases s.len(),
{
    if s.len() > 0 && s[s.len() - 1] != '.' {
        lemma_last_dot_range(s.drop_last());
    }
}

/// An identifier derived from a non-empty file name is non-empty: the
/// stem keeps at least the name's first character.
pub proof fn lemma_stem_nonempty(s: Seq<char>)
    requires
        s.len() > 0,
    ensures
        stem_of(s).len() > 0,
{
    lemma_last_dot_range(s);
}

/// Whether a file name is a non-degenerate `.json` name: a non-empty stem
/// followed by the literal suffix `.json`.
pub open spec fn is_json_name(s: Seq<char>) -> bool {
    s.len() > 5 && s.subrange(s.len() - 5, s.len() as int) == ".json"@
}

/// The stem of a `.json` name is the name without its last five
/// characters, and the name is recovered from the stem by appending
/// `.json`.
pub proof fn lemma_json_stem(s: Seq<char>)
    requires
        is_json_name(s),
    ensures
        stem_of(s) == s.take(s.len() - 5),
        s == stem_of(s) + ".json"@,
{
    reveal_strlit(".json");
    let d = s.len() - 5;
    assert(s[d] == s.subrange(s.len() - 5, s.len() as int)[0]);
    assert(forall|j: int| d < j < s.len() ==> s[j] == ".json"@[j - d] && s[j] != '.');
    lemma_last_dot_at(s, d);
    assert(s =~= s.take(d) + ".json"@);
}

/// Distinct `.json` file names have distinct stems: the loader therefore
/// gives every entity of such a directory its own identifier.
pub proof fn lemma_json_stems_distinct(a: Seq<char>, b: Seq<char>)
    requires
        is_json_name(a),
        is_json_name(b),
        a != b,
    ensures
        stem_of(a) != stem_of(b),
{
    lemma_json_stem(a);
    lemma_json_stem(b);
    if stem_of(a) == stem_of(b) {
        assert(a =~= b);
    }
}

/// Finds the position of the last `'.'` in `name`, if any.
fn find_last_dot(name: &str) -> (r: Option<usize>)
    ensures
        r matches Some(k) ==> k < name@.len() && last_dot(name@) == k,
        r is None ==> last_dot(name@) == -1,
{
    let n = name.unicode_len();
    let mut j: usize = n;
    while j > 0
        invariant
            n == name@.len(),
            j <= n,
            forall|t: int| j <= t < n ==> name@[t] != '.',
        decreases j,
    {
        j = j - 1;
        let c = name.get_char(j);
        if c == '.' {
            proof {
                lemma_last_dot_at(name@, j as int);
            }
            return Some(j);
        }
    }
    proof {
        lemma_no_dot(name@);
    }
    None
}

/// Derives an identifier from a file name: its stem, i.e. everything
/// before the last dot, or the whole name when no dot splits it.
pub fn file_stem(name: &str) -> (r: String)
    ensures
        r@ == stem_of(name@),
{
    match find_last_dot(name) {
        Some(k) if k > 0 => {
            let s = name.substring_char(0, k);
            proof {
                assert(name@.subrange(0, k as int) =~= name@.take(k as int));
            }
            String::from_str(s)
        },
        _ => String::from_str(name),
    }
}

/// Builds `<dir>/<id>.html`, the output path of one character page.
pub fn page_path(dir: &str, id: &str) -> (r: String)
    ensures
        r@ == page_path_of(dir@, id@),
{
    let mut out = String::from_str(dir);
    out.append("/");
    out.append(id);
    out.append(".html");
    out
}

/// Builds `<dir>/index.html`, the output path of the index page.
pub fn index_path(dir: &str) -> (r: String)
    ensures
        r@ == index_path_of(dir@),
{
    let mut out = String::from_str(dir);
    out.append("/index.html");
    out
}

/// Builds `<base>/<rel>`, the destination of one mirrored entry.
pub fn join_path(base: &str, rel: &str) -> (r: String)
    ensures
        r@ == joined_path(base@, rel@),
{
    let mut out = String::from_str(base);
    out.append("/");
    out.append(rel);
    out
}

} // verus!
