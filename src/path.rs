//! File names and paths inside the store directory.

use vstd::prelude::*;

verus! {

/// The path of the entry `name` inside the directory `dir`: a separator is
/// put between them unless `dir` is empty or already ends with one.
pub open spec fn join_spec(dir: Seq<char>, name: Seq<char>) -> Seq<char> {
    if dir.len() == 0 {
        name
    } else if dir.last() == '/' {
        dir + name
    } else {
        dir + seq!['/'] + name
    }
}

/// The name of the file that holds `title` with extension `ext`.
pub open spec fn file_name_spec(title: Seq<char>, ext: Seq<char>) -> Seq<char> {
    title + seq!['.'] + ext
}

/// The extension of metadata files.
pub open spec fn json_ext() -> Seq<char> {
    seq!['j', 's', 'o', 'n']
}

/// The name of the metadata file of `title`.
pub open spec fn metadata_name(title: Seq<char>) -> Seq<char> {
    file_name_spec(title, json_ext())
}

/// Whether a directory entry is a metadata file: a plain name (no separator)
/// whose extension is `json` and whose stem is not empty.
pub open spec fn is_metadata_name(name: Seq<char>) -> bool {
    &&& !name.contains('/')
    &&& name.len() > 5
    &&& name.subrange(name.len() - 5, name.len() as int) == seq!['.'] + json_ext()
}

/// Joining onto a fixed directory never maps two names to one path.
pub proof fn lemma_join_injective(dir: Seq<char>, a: Seq<char>, b: Seq<char>)
    requires
        join_spec(dir, a) == join_spec(dir, b),
    ensures
        a == b,
{
    let pa = join_spec(dir, a);
    let k: int = pa.len() - a.len();
    assert(a =~= pa.subrange(k, pa.len() as int));
    assert(b =~= join_spec(dir, b).subrange(k, pa.len() as int));
}

/// Builds the path of `name` inside `dir`.
pub fn join(dir: &str, name: &str) -> (r: String)
    ensures
        r@ == join_spec(dir@, name@),
{
    let n = dir.unicode_len();
    let mut r = String::from_str(dir);
    if n > 0 && dir.get_char(n - 1) != '/' {
        let sep = "/";
        proof {
            reveal_strlit("/");
        }
        r.append(sep);
    }
    r.append(name);
    r
}

/// Builds the file name `title.ext`.
pub fn file_name(title: &str, ext: &str) -> (r: String)
    ensures
        r@ == file_name_spec(title@, ext@),
{
    let mut r = String::from_str(title);
    let dot = ".";
    proof {
        reveal_strlit(".");
    }
    r.append(dot);
    r.append(ext);
    r
}

/// Whether `name` is the name of a metadata file.
pub fn is_metadata_file(name: &str) -> (r: bool)
    ensures
        r == is_metadata_name(name@),
{
    let n = name.unicode_len();
    if n <= 5 {
        return false;
    }
    let mut i: usize = 0;
    while i < n
        invariant
            n == name@.len(),
            i <= n,
            forall|j: int| 0 <= j < i ==> name@[j] != '/',
        decreases n - i,
    {
        if name.get_char(i) == '/' {
            return false;
        }
        i = i + 1;
    }
    let suffix = name.substring_char(n - 5, n);
    let ext = ".json";
    proof {
        reveal_strlit(".json");
    }
    assert(ext@ =~= seq!['.'] + json_ext());
    let mut k: usize = 0;
    while k < 5
        invariant
            n > 5,
            n == name@.len(),
            suffix@ == name@.subrange(n - 5, n as int),
            ext@ == seq!['.'] + json_ext(),
            k <= 5,
            forall|j: int| 0 <= j < k ==> suffix@[j] == ext@[j],
        decreases 5 - k,
    {
        if suffix.get_char(k) != ext.get_char(k) {
            return false;
        }
        k = k + 1;
    }
    assert(suffix@ =~= ext@);
    true
}

} // verus!
