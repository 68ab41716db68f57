//! How the server's file routes are laid out.

use vstd::prelude::*;

verus! {

/// `dir` with exactly the trailing separator it needs to be a route prefix.
pub open spec fn with_separator(dir: Seq<char>) -> Seq<char> {
    if dir.len() > 0 && dir.last() == '/' {
        dir
    } else {
        dir + seq!['/']
    }
}

/// The route under which the store directory's files are served:
/// `/<dir>/*file`.
pub fn resource_route(dir: &str) -> (r: String)
    ensures
        r@ == seq!['/'] + with_separator(dir@) + "*file"@,
{
    let n = dir.unicode_len();
    let mut r = String::from_str("/");
    proof {
        reveal_strlit("/");
    }
    r.append(dir);
    if n == 0 || dir.get_char(n - 1) != '/' {
        r.append("/");
    }
    r.append("*file");
    r
}

/// Whether a requested asset is a page: a name without a `.`, served from
/// its `.html` file.
pub fn is_page_route(file: &str) -> (r: bool)
    ensures
        r == !file@.contains('.'),
{
    let n = file.unicode_len();
    let mut i: usize = 0;
    while i < n
        invariant
            n == file@.len(),
            i <= n,
            forall|j: int| 0 <= j < i ==> file@[j] != '.',
        decreases n - i,
    {
        if file.get_char(i) == '.' {
            return false;
        }
        i = i + 1;
    }
    true
}

} // verus!
