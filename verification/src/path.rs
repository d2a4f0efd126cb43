//! The path normalizer: maps a request path to a storage object key,
//! applying the directory-index convention.

use vstd::prelude::*;

verus! {

/// The object key that a request path resolves to: a path ending in `/`
/// gets the directory index file appended; any other path is used unchanged.
pub open spec fn normalized_key(path: Seq<char>) -> Seq<char> {
    if path.len() > 0 && path.last() == '/' {
        path + "index.html"@
    } else {
        path
    }
}

/// Law: for any path ending in `/`, the normalized object key is the path
/// with `index.html` appended.
pub proof fn lemma_normalize_directory(path: Seq<char>)
    requires
        path.len() > 0,
        path.last() == '/',
    ensures
        normalized_key(path) == path + "index.html"@,
{
}

/// Law: for any path not ending in `/` (the empty path included), the
/// normalized object key is the path unchanged.
pub proof fn lemma_normalize_plain(path: Seq<char>)
    requires
        path.len() == 0 || path.last() != '/',
    ensures
        normalized_key(path) == path,
{
}

/// Law: the root path normalizes to the root index key.
pub proof fn lemma_normalize_root()
    ensures
        normalized_key("/"@) == "/index.html"@,
{
    reveal_strlit("/");
    reveal_strlit("index.html");
    reveal_strlit("/index.html");
    assert(normalized_key("/"@) =~= "/index.html"@);
}

/// Maps a raw request path to the storage object key it addresses.
pub fn normalize_path(raw_path: &str) -> (key: String)
    ensures
        key@ == normalized_key(raw_path@),
{
    let n = raw_path.unicode_len();
    if n > 0 && raw_path.get_char(n - 1) == '/' {
        let mut key = raw_path.to_owned();
        key.append("index.html");
        key
    } else {
        raw_path.to_owned()
    }
}

} // verus!
