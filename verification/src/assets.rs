//! Serving the administration pages: which embedded file a request path
//! names, and the content type it is sent with.
use vstd::prelude::*;

use crate::text::str_eq;

verus! {

/// `s` without its leading slashes.
pub open spec fn trim_slashes(s: Seq<char>) -> Seq<char>
    decreases s.len(),
{
    if s.len() > 0 && s[0] == '/' {
        trim_slashes(s.skip(1))
    } else {
        s
    }
}

/// The part of `s` after its last dot; all of `s` when it has none.
pub open spec fn after_last_dot(s: Seq<char>) -> Seq<char>
    decreases s.len(),
{
    if s.len() == 0 {
        s
    } else if s.last() == '.' {
        Seq::empty()
    } else {
        after_last_dot(s.drop_last()).push(s.last())
    }
}

/// The file that a request for `requested` names: the path without its
/// leading slashes, `index.html` when nothing is left.
pub open spec fn asset_for(requested: Seq<char>) -> Seq<char> {
    if trim_slashes(requested).len() == 0 {
        "index.html"@
    } else {
        trim_slashes(requested)
    }
}

/// The content type of a file whose name ends in `.ext`.
pub open spec fn mime_for(ext: Seq<char>) -> Seq<char> {
    if ext == "html"@ {
        "text/html; charset=utf-8"@
    } else if ext == "js"@ {
        "application/javascript; charset=utf-8"@
    } else if ext == "css"@ {
        "text/css; charset=utf-8"@
    } else if ext == "png"@ {
        "image/png"@
    } else if ext == "svg"@ {
        "image/svg+xml"@
    } else if ext == "ico"@ {
        "image/x-icon"@
    } else {
        "application/octet-stream"@
    }
}

/// The embedded file that a request for `requested` names.
pub fn asset_path(requested: &str) -> (p: String)
    ensures
        p@ == asset_for(requested@),
{
    proof {
        reveal_strlit("index.html");
    }
    let n = requested.unicode_len();
    let mut i: usize = 0;
    assert(requested@.skip(0) =~= requested@);
    while i < n && requested.get_char(i) == '/'
        invariant
            n == requested@.len(),
            i <= n,
            trim_slashes(requested@) == trim_slashes(requested@.skip(i as int)),
        decreases n - i,
    {
        assert(requested@.skip(i as int).skip(1) =~= requested@.skip(i + 1));
        i = i + 1;
    }
    let rest = requested.substring_char(i, n);
    assert(rest@ =~= requested@.skip(i as int));
    if i == n {
        "index.html".to_owned()
    } else {
        rest.to_owned()
    }
}

/// The content type that the file `path` is sent with, by the part of its
/// name after the last dot.
pub fn content_type(path: &str) -> (m: &'static str)
    ensures
        m@ == mime_for(after_last_dot(path@)),
{
    let n = path.unicode_len();
    let mut j: usize = n;
    assert(path@.subrange(0, n as int) =~= path@);
    assert(path@.subrange(n as int, n as int) =~= Seq::<char>::empty());
    assert(path@ + Seq::<char>::empty() =~= path@);
    while j > 0 && path.get_char(j - 1) != '.'
        invariant
            n == path@.len(),
            j <= n,
            after_last_dot(path@) == after_last_dot(path@.subrange(0, j as int)) + path@.subrange(
                j as int,
                n as int,
            ),
        decreases j,
    {
        let ghost pre = path@.subrange(0, j as int);
        assert(pre.drop_last() =~= path@.subrange(0, j - 1));
        assert(after_last_dot(path@.subrange(0, j - 1)) + path@.subrange(j - 1, n as int) =~= after_last_dot(
            path@.subrange(0, j - 1),
        ).push(pre.last()) + path@.subrange(j as int, n as int));
        j = j - 1;
    }
    let ext = path.substring_char(j, n);
    assert(ext@ =~= after_last_dot(path@)) by {
        if j == 0 {
            assert(path@.subrange(0, 0) =~= Seq::<char>::empty());
        }
    }
    proof {
        reveal_strlit("html");
        reveal_strlit("js");
        reveal_strlit("css");
        reveal_strlit("png");
        reveal_strlit("svg");
        reveal_strlit("ico");
    }
    if str_eq(ext, "html") {
        "text/html; charset=utf-8"
    } else if str_eq(ext, "js") {
        "application/javascript; charset=utf-8"
    } else if str_eq(ext, "css") {
        "text/css; charset=utf-8"
    } else if str_eq(ext, "png") {
        "image/png"
    } else if str_eq(ext, "svg") {
        "image/svg+xml"
    } else if str_eq(ext, "ico") {
        "image/x-icon"
    } else {
        "application/octet-stream"
    }
}

/// The extension is the part after the last dot, whatever comes before
/// that dot: for a text `e` without dots, `a.e` has extension `e`.
pub proof fn law_extension_after_last_dot(a: Seq<char>, e: Seq<char>)
    requires
        !e.contains('.'),
    ensures
        after_last_dot(a + seq!['.'] + e) == e,
    decreases e.len(),
{
    let s = a + seq!['.'] + e;
    if e.len() == 0 {
        assert(s.last() == '.');
    } else {
        let e1 = e.drop_last();
        assert(!e1.contains('.')) by {
            if e1.contains('.') {
                let k = choose|k: int| 0 <= k < e1.len() && e1[k] == '.';
                assert(e[k] == '.');
            }
        }
        law_extension_after_last_dot(a, e1);
        assert(s.drop_last() =~= a + seq!['.'] + e1);
        assert(s.last() == e.last());
        assert(e.last() != '.') by {
            assert(e[e.len() - 1] == e.last());
        }
        assert(e1.push(e.last()) =~= e);
    }
}

/// What comes before a file name with a dot does not change its extension,
/// so a file in a folder (`d/f`) is sent with the content type of `f`.
pub proof fn law_folder_keeps_extension(d: Seq<char>, f: Seq<char>)
    requires
        f.contains('.'),
    ensures
        after_last_dot(d + f) == after_last_dot(f),
        mime_for(after_last_dot(d + seq!['/'] + f)) == mime_for(after_last_dot(f)),
{
    lemma_prefix_keeps_extension(d, f);
    assert(d + seq!['/'] + f =~= (d + seq!['/']) + f);
    lemma_prefix_keeps_extension(d + seq!['/'], f);
}

/// A prefix does not change the extension of a text that has a dot.
pub proof fn lemma_prefix_keeps_extension(d: Seq<char>, f: Seq<char>)
    requires
        f.contains('.'),
    ensures
        after_last_dot(d + f) == after_last_dot(f),
    decreases f.len(),
{
    let s = d + f;
    assert(f.len() > 0);
    assert(s.last() == f.last());
    if f.last() != '.' {
        let f1 = f.drop_last();
        assert(f1.contains('.')) by {
            let k = choose|k: int| 0 <= k < f.len() && f[k] == '.';
            assert(k != f.len() - 1);
            assert(f1[k] == '.');
        }
        lemma_prefix_keeps_extension(d, f1);
        assert(s.drop_last() =~= d + f1);
    }
}

/// The file a request names never begins with a slash, and asking for that
/// file again names the same file.
pub proof fn law_asset_path_settles(requested: Seq<char>)
    ensures
        asset_for(requested).len() > 0,
        asset_for(requested)[0] != '/',
        asset_for(asset_for(requested)) == asset_for(requested),
{
    reveal_strlit("index.html");
    lemma_trim_slashes(requested);
    let a = asset_for(requested);
    lemma_trim_slashes(a);
}

/// Trimming leaves no leading slash, and trimming twice is trimming once.
pub proof fn lemma_trim_slashes(s: Seq<char>)
    ensures
        trim_slashes(s).len() > 0 ==> trim_slashes(s)[0] != '/',
        trim_slashes(trim_slashes(s)) == trim_slashes(s),
    decreases s.len(),
{
    if s.len() > 0 && s[0] == '/' {
        lemma_trim_slashes(s.skip(1));
    }
}

} // verus!
