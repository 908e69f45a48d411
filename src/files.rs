use vstd::prelude::*;

use crate::roles::str_equal;

verus! {

/// `s` with every leading repetition of the non-empty prefix `p` removed.
pub open spec fn strip_prefixes(s: Seq<char>, p: Seq<char>) -> Seq<char>
    decreases s.len(),
{
    if p.len() > 0 && s.len() >= p.len() && s.subrange(0, p.len() as int) == p {
        strip_prefixes(s.subrange(p.len() as int, s.len() as int), p)
    } else {
        s
    }
}

pub open spec fn public_files_prefix() -> Seq<char> {
    "api/files/"@
}

/// The path of a stored file under the public directory, from the path under
/// which the API serves it.
pub fn stored_file_path(api_uri: &str) -> (r: &str)
    ensures
        r@ == strip_prefixes(api_uri@, public_files_prefix()),
{
    proof {
        reveal_strlit("api/files/");
    }
    let n = api_uri.unicode_len();
    let mut i: usize = 0;
    assert(api_uri@.subrange(0, n as int) == api_uri@);
    while n - i >= 10 && str_equal(api_uri.substring_char(i, i + 10), "api/files/")
        invariant
            n == api_uri@.len(),
            i <= n,
            strip_prefixes(api_uri@, public_files_prefix()) == strip_prefixes(
                api_uri@.subrange(i as int, n as int),
                public_files_prefix(),
            ),
        decreases n - i,
    {
        let ghost rest = api_uri@.subrange(i as int, n as int);
        assert(rest.subrange(0, 10) == api_uri@.subrange(i as int, i + 10));
        assert(rest.subrange(10, rest.len() as int) == api_uri@.subrange(i + 10, n as int));
        i = i + 10;
    }
    proof {
        let rest = api_uri@.subrange(i as int, n as int);
        if n - i >= 10 {
            assert(rest.subrange(0, 10) == api_uri@.subrange(i as int, i + 10));
        }
    }
    api_uri.substring_char(i, n)
}

} // verus!
