//! Where uploaded artifacts are kept. Artifacts are content-addressed:
//! the key is the artifact's SHA-256 checksum. The local-filesystem
//! store's path and URL scheme live here; reading and writing the files
//! is left to the caller.
use crate::text::{chars_of, concat, owned, string_from_chars, sub_chars};
use vstd::prelude::*;

verus! {

/// `Path::join` on Unix: an absolute `p` replaces `base`; otherwise a `/`
/// separates them unless `base` is empty or already ends with one.
pub open spec fn join_path(base: Seq<char>, p: Seq<char>) -> Seq<char> {
    if p.len() > 0 && p[0] == '/' {
        p
    } else if base.len() == 0 || base.last() == '/' {
        base + p
    } else {
        base + seq!['/'] + p
    }
}

pub open spec fn url_prefix() -> Seq<char> {
    "file://"@
}

/// The URL recorded for an artifact stored at `path`.
pub open spec fn spec_url_for(path: Seq<char>) -> Seq<char> {
    url_prefix() + path
}

/// The path an artifact URL refers to: the URL without its `file://`
/// prefix, or the URL itself when it has none.
pub open spec fn spec_path_for_url(url: Seq<char>) -> Seq<char> {
    if url.len() >= 7 && url.subrange(0, 7) == url_prefix() {
        url.subrange(7, url.len() as int)
    } else {
        url
    }
}

/// Artifact storage on the local filesystem under `root`.
#[derive(Clone, Debug)]
pub struct LocalFsStore {
    pub root: String,
}

impl LocalFsStore {
    pub fn new(root: String) -> (s: Self)
        ensures
            s.root == root,
    {
        LocalFsStore { root }
    }

    /// The file an artifact with this key is written to:
    /// `<root>/<key>.tar.gz`.
    pub fn path_for(&self, key: &str) -> (p: String)
        ensures
            p@ == join_path(self.root@, key@ + ".tar.gz"@),
    {
        let file = concat(key, ".tar.gz");
        let f = chars_of(file.as_str());
        let r = chars_of(self.root.as_str());
        if f.len() > 0 && f[0] == '/' {
            file
        } else if r.len() == 0 || r[r.len() - 1] == '/' {
            concat(self.root.as_str(), file.as_str())
        } else {
            let a = concat(self.root.as_str(), "/");
            proof {
                reveal_strlit("/");
            }
            concat(a.as_str(), file.as_str())
        }
    }

    /// The URL recorded for an artifact written to `path`.
    pub fn url_for(path: &str) -> (u: String)
        ensures
            u@ == spec_url_for(path@),
    {
        concat("file://", path)
    }

    /// The file behind an artifact URL.
    pub fn path_for_url(url: &str) -> (p: String)
        ensures
            p@ == spec_path_for_url(url@),
    {
        let v = chars_of(url);
        let pre = chars_of("file://");
        proof {
            reveal_strlit("file://");
        }
        if v.len() >= 7 {
            let head = sub_chars(&v, 0, 7);
            if crate::text::chars_eq(&head, &pre) {
                let rest = sub_chars(&v, 7, v.len());
                return string_from_chars(&rest);
            }
        }
        owned(url)
    }
}

/// Reading back what was stored: the URL recorded for a path leads back
/// to that path.
pub proof fn lemma_url_round_trip(path: Seq<char>)
    ensures
        spec_path_for_url(spec_url_for(path)) == path,
{
    reveal_strlit("file://");
    let u = spec_url_for(path);
    assert(u.subrange(0, 7) =~= url_prefix());
    assert(u.subrange(7, u.len() as int) =~= path);
}

} // verus!
