//! Mapping from filesystem paths to logical module identifiers.
//!
//! A path maps to a module when it lies under the project root, its
//! (normalized) relative path starts with the configured source-directory
//! prefix, and it carries one of the recognized source extensions. The module
//! identifier is the relative path with the prefix and the extension stripped
//! and with `\` separators normalized to `/`.

use vstd::prelude::*;
use vstd::string::*;
use crate::text;

verus! {

/// Maps filesystem paths to logical module identifiers.
pub struct PathMapper {
    /// Relative directory prefix that module sources live under, e.g. `src/`.
    pub src_prefix: String,
    /// Recognized source-file extensions, each with its leading dot.
    pub extensions: Vec<String>,
}

/// The views of a sequence of strings.
pub open spec fn seq_views(v: Seq<String>) -> Seq<Seq<char>> {
    v.map_values(|s: String| s@)
}

/// `p` with `\` separators replaced by `/`.
pub open spec fn normalized(p: Seq<char>) -> Seq<char> {
    Seq::new(p.len(), |i: int| if p[i] == '\\' { '/' } else { p[i] })
}

/// The path relative to `root`, if `path` lies under it; `None` otherwise.
pub open spec fn spec_rel_path(path: Seq<char>, root: Seq<char>) -> Option<Seq<char>> {
    if !root.is_prefix_of(path) {
        None
    } else {
        let rest = path.skip(root.len() as int);
        if rest.len() == 0 {
            Some(rest)
        } else if rest[0] == '/' || rest[0] == '\\' {
            Some(rest.skip(1))
        } else if root.len() > 0 && (root.last() == '/' || root.last() == '\\') {
            Some(rest)
        } else {
            None
        }
    }
}

/// Index of the first extension in `exts`, from position `i` on, that is a
/// suffix of `rel`.
pub open spec fn first_ext(rel: Seq<char>, exts: Seq<Seq<char>>, i: int) -> Option<int>
    decreases exts.len() - i,
{
    if i < 0 || i >= exts.len() {
        None
    } else if exts[i].is_suffix_of(rel) {
        Some(i)
    } else {
        first_ext(rel, exts, i + 1)
    }
}

/// The module identifier that `path` maps to under `root` with the given
/// source prefix and recognized extensions, if any.
pub open spec fn spec_map(
    path: Seq<char>,
    root: Seq<char>,
    prefix: Seq<char>,
    exts: Seq<Seq<char>>,
) -> Option<Seq<char>> {
    match spec_rel_path(path, root) {
        None => None,
        Some(rel0) => {
            let rel = normalized(rel0);
            match first_ext(rel, exts, 0) {
                None => None,
                Some(k) => if prefix.is_prefix_of(rel) && prefix.len() + exts[k].len()
                    <= rel.len() {
                    Some(rel.subrange(prefix.len() as int, rel.len() - exts[k].len()))
                } else {
                    None
                },
            }
        },
    }
}

/// Every path of the form `root` + `/src/` + stem + recognized extension
/// maps, under the default mapper, to exactly the stem: the relative path
/// under the source directory with the extension stripped. With the mapping
/// a function of its arguments, the result is in particular deterministic.
pub proof fn lemma_map_src_path(path: Seq<char>, root: Seq<char>, stem: Seq<char>, ext: Seq<char>)
    requires
        ext == ".rs"@ || ext == ".orbit"@,
        path == root + seq!['/'] + "src/"@ + stem + ext,
        forall|i: int| 0 <= i < stem.len() ==> stem[i] != '\\',
    ensures
        spec_map(path, root, "src/"@, seq![".rs"@, ".orbit"@]) == Some(stem),
{
    reveal_strlit("src/");
    reveal_strlit(".rs");
    reveal_strlit(".orbit");
    let rel = "src/"@ + stem + ext;
    assert(root.is_prefix_of(path)) by {
        assert(path.subrange(0, root.len() as int) =~= root);
    }
    let rest = path.skip(root.len() as int);
    assert(rest =~= seq!['/'] + rel);
    assert(rest[0] == '/');
    assert(rest.skip(1) =~= rel);
    assert(spec_rel_path(path, root) == Some(rel));
    assert(normalized(rel) =~= rel);
    let rl = rel.len() as int;
    let el = ext.len() as int;
    assert(rel.subrange(rl - el, rl) =~= ext);
    if ext == ".rs"@ {
        assert(".rs"@.is_suffix_of(rel));
        assert(first_ext(rel, seq![".rs"@, ".orbit"@], 0) == Some(0int));
    } else {
        assert(rel[rl - 1] == 't');
        assert(!".rs"@.is_suffix_of(rel)) by {
            assert(rel.subrange(rl - 3, rl)[2] == 't');
        }
        assert(".orbit"@.is_suffix_of(rel));
        assert(first_ext(rel, seq![".rs"@, ".orbit"@], 1) == Some(1int));
        assert(first_ext(rel, seq![".rs"@, ".orbit"@], 0) == Some(1int));
    }
    assert("src/"@.is_prefix_of(rel)) by {
        assert(rel.subrange(0, 4) =~= "src/"@);
    }
    assert(rel.subrange(4, rl - el) =~= stem);
}

/// A path outside the project root, one whose extension no recognized
/// extension matches, or one whose relative path does not start with the
/// source-directory prefix maps to nothing.
pub proof fn lemma_map_none(path: Seq<char>, root: Seq<char>, prefix: Seq<char>, exts: Seq<Seq<char>>)
    requires
        spec_rel_path(path, root) is None || (spec_rel_path(path, root) matches Some(r0)
            && first_ext(normalized(r0), exts, 0) is None) || (spec_rel_path(path, root)
            matches Some(r0) && !prefix.is_prefix_of(normalized(r0))),
    ensures
        spec_map(path, root, prefix, exts) is None,
{
}

/// The path relative to `root`, if `path` lies under it.
fn rel_path(path: &str, root: &str) -> (r: Option<String>)
    ensures
        match r {
            Some(s) => spec_rel_path(path@, root@) == Some(s@),
            None => spec_rel_path(path@, root@) is None,
        },
{
    if !text::starts_with(path, root) {
        return None;
    }
    let plen = path.unicode_len();
    let rlen = root.unicode_len();
    if plen == rlen {
        let empty = String::new();
        assert(path@.skip(rlen as int) =~= empty@);
        return Some(empty);
    }
    let c = path.get_char(rlen);
    assert(c == path@.skip(rlen as int)[0]);
    if c == '/' || c == '\\' {
        let s = text::substring(path, rlen + 1, plen);
        assert(s@ =~= path@.skip(rlen as int).skip(1));
        return Some(s);
    }
    if rlen > 0 {
        let last = root.get_char(rlen - 1);
        assert(last == root@.last());
        if last == '/' || last == '\\' {
            let s = text::substring(path, rlen, plen);
            assert(s@ =~= path@.skip(rlen as int));
            return Some(s);
        }
    }
    None
}

/// `p` with `\` separators replaced by `/`.
fn normalize(p: &str) -> (r: String)
    ensures
        r@ == normalized(p@),
{
    let len = p.unicode_len();
    let mut out = String::new();
    let mut i: usize = 0;
    while i < len
        invariant
            len == p@.len(),
            i <= len,
            out@ == normalized(p@).subrange(0, i as int),
        decreases len - i,
    {
        let c = p.get_char(i);
        if c == '\\' {
            text::push_char(&mut out, '/');
        } else {
            text::push_char(&mut out, c);
        }
        assert(out@ =~= normalized(p@).subrange(0, i + 1));
        i += 1;
    }
    assert(out@ =~= normalized(p@));
    out
}

impl PathMapper {
    /// Mapper with the framework defaults: sources under `src/`, with the
    /// native-language extension `.rs` or the markup-component extension
    /// `.orbit`.
    pub fn new_default() -> (r: Self)
        ensures
            r.src_prefix@ == "src/"@,
            seq_views(r.extensions@) =~= seq![".rs"@, ".orbit"@],
    {
        let mut extensions: Vec<String> = Vec::new();
        extensions.push(text::to_string(".rs"));
        extensions.push(text::to_string(".orbit"));
        PathMapper { src_prefix: text::to_string("src/"), extensions }
    }

    /// The module identifier for `path` under `project_root`, if `path` is a
    /// recognized source file under the source directory.
    pub fn map(&self, path: &str, project_root: &str) -> (r: Option<String>)
        ensures
            match r {
                Some(m) => spec_map(
                    path@,
                    project_root@,
                    self.src_prefix@,
                    seq_views(self.extensions@),
                ) == Some(m@),
                None => spec_map(
                    path@,
                    project_root@,
                    self.src_prefix@,
                    seq_views(self.extensions@),
                ) is None,
            },
    {
        let ghost exts = seq_views(self.extensions@);
        let rel0 = match rel_path(path, project_root) {
            Some(s) => s,
            None => {
                return None;
            },
        };
        let rel = normalize(rel0.as_str());
        let ghost grel0 = rel0@;
        let mut k: usize = 0;
        let n = self.extensions.len();
        while k < n
            invariant
                n == self.extensions.len(),
                k <= n,
                exts == seq_views(self.extensions@),
                spec_rel_path(path@, project_root@) == Some(grel0),
                rel@ == normalized(grel0),
                first_ext(rel@, exts, 0) == first_ext(rel@, exts, k as int),
            decreases n - k,
        {
            if text::ends_with(rel.as_str(), self.extensions[k].as_str()) {
                let elen = self.extensions[k].unicode_len();
                let rlen = rel.unicode_len();
                let plen = self.src_prefix.unicode_len();
                assert(exts[k as int] == self.extensions@[k as int]@);
                assert(first_ext(rel@, exts, 0) == Some(k as int));
                assert(elen <= rlen);
                if text::starts_with(rel.as_str(), self.src_prefix.as_str()) && plen <= rlen
                    - elen {
                    let m = text::substring(rel.as_str(), plen, rlen - elen);
                    return Some(m);
                } else {
                    return None;
                }
            }
            k += 1;
        }
        assert(first_ext(rel@, exts, 0) is None);
        None
    }
}

} // verus!
