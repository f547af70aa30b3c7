//! Lookup of embedded static files: path resolution, extension-based
//! content types, and the request handler's decision.

use crate::bytes_util::bytes_eq;
use vstd::prelude::*;
use vstd::string::*;

verus! {

/// One embedded file: its path (relative, `/`-separated) and contents.
pub struct StaticFile {
    pub path: Vec<u8>,
    pub contents: Vec<u8>,
}

/// An embedded directory of static files.
pub struct StaticDir {
    pub entries: Vec<StaticFile>,
}

/// The index of the last occurrence of `b` in `s`, if any.
pub open spec fn spec_rfind(s: Seq<u8>, b: u8) -> Option<int>
    decreases s.len(),
{
    if s.len() == 0 {
        None
    } else if s.last() == b {
        Some(s.len() - 1)
    } else {
        spec_rfind(s.drop_last(), b)
    }
}

/// Finds the last occurrence of `b` in `s`.
pub fn rfind_byte(s: &[u8], b: u8) -> (r: Option<usize>)
    ensures
        match r {
            Some(i) => spec_rfind(s@, b) == Some(i as int) && i < s@.len(),
            None => spec_rfind(s@, b) is None,
        },
{
    let mut i: usize = s.len();
    proof {
        assert(s@.subrange(0, s@.len() as int) =~= s@);
    }
    while i > 0
        invariant
            i <= s@.len(),
            spec_rfind(s@, b) == spec_rfind(s@.subrange(0, i as int), b),
        decreases i,
    {
        if s[i - 1] == b {
            proof {
                assert(s@.subrange(0, i as int).last() == s@[i - 1]);
            }
            return Some(i - 1);
        }
        proof {
            assert(s@.subrange(0, i as int).drop_last() =~= s@.subrange(0, i - 1));
        }
        i -= 1;
    }
    None
}

/// The extension of the final path component: the part after its last
/// `.`, unless the component has no `.` or starts with its only one.
pub open spec fn spec_extension(path: Seq<u8>) -> Option<Seq<u8>> {
    let comp_start = match spec_rfind(path, 47u8) {
        Some(i) => i + 1,
        None => 0,
    };
    let name = path.subrange(comp_start, path.len() as int);
    match spec_rfind(name, 46u8) {
        Some(d) => if d > 0 {
            Some(name.subrange(d + 1, name.len() as int))
        } else {
            None
        },
        None => None,
    }
}

/// Computes the extension of the final path component.
pub fn extension_of(path: &[u8]) -> (r: Option<Vec<u8>>)
    ensures
        r is Some <==> spec_extension(path@) is Some,
        r matches Some(e) ==> Some(e@) == spec_extension(path@),
{
    let plen = path.len();
    let comp_start: usize = match rfind_byte(path, 47) {
        Some(i) => {
            proof {
                assert(i < path@.len() == plen);
            }
            i + 1
        },
        None => 0,
    };
    let name = vstd::slice::slice_subrange(path, comp_start, plen);
    match rfind_byte(name, 46) {
        Some(d) => {
            if d > 0 {
                let ext = vstd::slice::slice_subrange(name, d + 1, name.len());
                Some(vstd::slice::slice_to_vec(ext))
            } else {
                None
            }
        },
        None => None,
    }
}

/// The content type served for a file extension.
pub open spec fn spec_content_type(ext: Seq<u8>) -> Seq<char> {
    if ext == "html".spec_bytes() {
        "text/html; charset=utf-8"@
    } else if ext == "css".spec_bytes() {
        "text/css"@
    } else if ext == "js".spec_bytes() {
        "text/javascript"@
    } else if ext == "json".spec_bytes() {
        "application/json"@
    } else if ext == "png".spec_bytes() {
        "image/png"@
    } else if ext == "jpg".spec_bytes() || ext == "jpeg".spec_bytes() {
        "image/jpeg"@
    } else if ext == "svg".spec_bytes() {
        "image/svg+xml"@
    } else if ext == "ico".spec_bytes() {
        "image/x-icon"@
    } else if ext == "txt".spec_bytes() {
        "text/plain; charset=utf-8"@
    } else if ext == "wasm".spec_bytes() {
        "application/wasm"@
    } else {
        "application/octet-stream"@
    }
}

/// Maps a file extension to the content type served for it, with a
/// binary default for unknown extensions.
pub fn content_type_for(ext: &[u8]) -> (r: &'static str)
    ensures
        r@ == spec_content_type(ext@),
{
    if bytes_eq(ext, "html".as_bytes()) {
        "text/html; charset=utf-8"
    } else if bytes_eq(ext, "css".as_bytes()) {
        "text/css"
    } else if bytes_eq(ext, "js".as_bytes()) {
        "text/javascript"
    } else if bytes_eq(ext, "json".as_bytes()) {
        "application/json"
    } else if bytes_eq(ext, "png".as_bytes()) {
        "image/png"
    } else if bytes_eq(ext, "jpg".as_bytes()) || bytes_eq(ext, "jpeg".as_bytes()) {
        "image/jpeg"
    } else if bytes_eq(ext, "svg".as_bytes()) {
        "image/svg+xml"
    } else if bytes_eq(ext, "ico".as_bytes()) {
        "image/x-icon"
    } else if bytes_eq(ext, "txt".as_bytes()) {
        "text/plain; charset=utf-8"
    } else if bytes_eq(ext, "wasm".as_bytes()) {
        "application/wasm"
    } else {
        "application/octet-stream"
    }
}

/// The contents of the first entry whose path is `path`, if any.
pub open spec fn spec_lookup(entries: Seq<StaticFile>, path: Seq<u8>) -> Option<Seq<u8>>
    decreases entries.len(),
{
    if entries.len() == 0 {
        None
    } else if entries[0].path@ == path {
        Some(entries[0].contents@)
    } else {
        spec_lookup(entries.drop_first(), path)
    }
}

/// What a request for `path` is served: the root path stands for
/// `index.html`; the file must exist and its name must carry an
/// extension, which chooses the content type.
pub open spec fn spec_files(entries: Seq<StaticFile>, path: Seq<u8>) -> Option<(Seq<char>, Seq<u8>)> {
    let effective = if path.len() == 0 {
        "index.html".spec_bytes()
    } else {
        path
    };
    match spec_lookup(entries, effective) {
        None => None,
        Some(contents) => match spec_extension(effective) {
            None => None,
            Some(ext) => Some((spec_content_type(ext), contents)),
        },
    }
}

/// Serves a requested path from an embedded directory: the content type
/// chosen by the file's extension, and the file's contents.
pub fn files(dir: &StaticDir, path: &[u8]) -> (r: Option<(&'static str, Vec<u8>)>)
    ensures
        r is Some <==> spec_files(dir.entries@, path@) is Some,
        r matches Some(p) ==> (match spec_files(dir.entries@, path@) {
            Some(q) => p.0@ == q.0 && p.1@ == q.1,
            None => false,
        }),
{
    let effective: &[u8] = if path.len() == 0 {
        "index.html".as_bytes()
    } else {
        path
    };
    let ghost eff = effective@;
    let n = dir.entries.len();
    let mut i: usize = 0;
    let mut found: Option<&Vec<u8>> = None;
    proof {
        assert(dir.entries@.skip(0) =~= dir.entries@);
    }
    while i < n && found.is_none()
        invariant
            i <= n == dir.entries@.len(),
            eff == effective@,
            found is None ==> spec_lookup(dir.entries@, eff) == spec_lookup(
                dir.entries@.skip(i as int),
                eff,
            ),
            found matches Some(c) ==> Some(c@) == spec_lookup(dir.entries@, eff),
        decreases n - i,
    {
        let entry = &dir.entries[i];
        proof {
            assert(dir.entries@.skip(i as int)[0] == dir.entries@[i as int]);
            assert(dir.entries@.skip(i as int).drop_first() =~= dir.entries@.skip(i + 1));
        }
        if bytes_eq(entry.path.as_slice(), effective) {
            found = Some(&entry.contents);
        }
        i += 1;
    }
    let contents = match found {
        None => {
            return None;
        },
        Some(c) => c,
    };
    let ext = match extension_of(effective) {
        None => {
            return None;
        },
        Some(e) => e,
    };
    let content_type = content_type_for(ext.as_slice());
    Some((content_type, vstd::slice::slice_to_vec(contents.as_slice())))
}

} // verus!
