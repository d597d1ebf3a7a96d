//! Which project files go into the bundle sent to the build service, and
//! under which names.
use vstd::prelude::*;
use vstd::string::*;
use crate::text::{extension, file_name, file_name_of, path_extension, same_text, text_in};

verus! {

/// What `str::to_lowercase` makes of a text.
pub uninterp spec fn lower_of(s: Seq<char>) -> Seq<char>;

/// Relies on `str::to_lowercase`: the result depends on the characters
/// alone, and an empty text stays empty.
#[verifier::external_body]
fn lowercase(s: &str) -> (r: String)
    ensures
        r@ == lower_of(s@),
        s@.len() == 0 ==> r@.len() == 0,
{
    s.to_lowercase()
}

/// The extensions, in lower case, of the files sent for a full build.
pub open spec fn bundle_extensions() -> Seq<Seq<char>> {
    seq![
        "tex"@, "bib"@, "sty"@, "cls"@, "bst"@, "pdf"@, "png"@, "jpg"@, "jpeg"@,
        "eps"@, "csv"@, "dat"@, "tsv"@, "txt"@, "tikz"@, "otf"@, "ttf"@,
    ]
}

/// A path's extension, or the empty text when it has none.
pub open spec fn extension_text(p: Seq<char>) -> Seq<char> {
    match path_extension(p) {
        Some(e) => e,
        None => Seq::empty(),
    }
}

/// Whether a file goes into a bundle: for validation only document sources;
/// for a build every file of a bundled kind but the artifact itself.
pub open spec fn bundled(p: Seq<char>, output: Seq<char>, validate_only: bool) -> bool {
    if validate_only {
        lower_of(extension_text(p)) == "tex"@
    } else {
        bundle_extensions().contains(lower_of(extension_text(p))) && file_name_of(p) != output
    }
}

/// The paths of `ps` that go into a bundle, in their order.
pub open spec fn bundle_of(ps: Seq<Seq<char>>, output: Seq<char>, validate_only: bool) -> Seq<
    Seq<char>,
>
    decreases ps.len(),
{
    if ps.len() == 0 {
        Seq::empty()
    } else if bundled(ps.last(), output, validate_only) {
        bundle_of(ps.drop_last(), output, validate_only).push(ps.last())
    } else {
        bundle_of(ps.drop_last(), output, validate_only)
    }
}

/// A path with every backslash turned into a forward slash.
pub open spec fn forward_slashes(s: Seq<char>) -> Seq<char> {
    s.map_values(|c: char| if c == '\\' { '/' } else { c })
}

/// Why no bundle could be made.
#[derive(Clone, Copy, Debug, PartialEq, Eq, Structural)]
pub enum BundleError {
    /// No file of the project qualifies.
    NoFiles,
}

fn bundle_extension_list() -> (r: Vec<String>)
    ensures
        r@.map_values(|s: String| s@) == bundle_extensions(),
{
    let mut v: Vec<String> = Vec::new();
    v.push(String::from_str("tex"));
    v.push(String::from_str("bib"));
    v.push(String::from_str("sty"));
    v.push(String::from_str("cls"));
    v.push(String::from_str("bst"));
    v.push(String::from_str("pdf"));
    v.push(String::from_str("png"));
    v.push(String::from_str("jpg"));
    v.push(String::from_str("jpeg"));
    v.push(String::from_str("eps"));
    v.push(String::from_str("csv"));
    v.push(String::from_str("dat"));
    v.push(String::from_str("tsv"));
    v.push(String::from_str("txt"));
    v.push(String::from_str("tikz"));
    v.push(String::from_str("otf"));
    v.push(String::from_str("ttf"));
    assert(v@.map_values(|s: String| s@) =~= bundle_extensions());
    v
}

/// Whether a lower-case extension is one of the bundled kinds.
pub fn is_bundled_extension(folded: &str) -> (r: bool)
    ensures
        r == bundle_extensions().contains(folded@),
{
    text_in(&bundle_extension_list(), folded)
}

/// Whether the file at `path` goes into a bundle.
pub fn in_bundle(path: &str, output_name: &str, validate_only: bool) -> (r: bool)
    ensures
        r == bundled(path@, output_name@, validate_only),
{
    let folded = match extension(path) {
        Some(e) => lowercase(e),
        None => {
            proof {
                reveal_strlit("");
            }
            assert(""@ =~= Seq::<char>::empty());
            lowercase("")
        },
    };
    if validate_only {
        same_text(folded.as_str(), "tex")
    } else {
        is_bundled_extension(folded.as_str()) && !same_text(file_name(path), output_name)
    }
}

/// The paths of `paths` that go into a bundle, in order; an error when
/// there are none.
pub fn select_bundle(paths: &Vec<String>, output_name: &str, validate_only: bool) -> (r: Result<
    Vec<String>,
    BundleError,
>)
    ensures
        match r {
            Ok(v) => v@.map_values(|s: String| s@) == bundle_of(
                paths@.map_values(|s: String| s@),
                output_name@,
                validate_only,
            ) && v@.len() > 0,
            Err(e) => e == BundleError::NoFiles && bundle_of(
                paths@.map_values(|s: String| s@),
                output_name@,
                validate_only,
            ).len() == 0,
        },
{
    let ghost ps = paths@.map_values(|s: String| s@);
    let mut out: Vec<String> = Vec::new();
    let mut i: usize = 0;
    while i < paths.len()
        invariant
            i <= paths@.len(),
            ps == paths@.map_values(|s: String| s@),
            out@.map_values(|s: String| s@) == bundle_of(
                ps.subrange(0, i as int),
                output_name@,
                validate_only,
            ),
        decreases paths@.len() - i,
    {
        let ghost pre = ps.subrange(0, i as int);
        let ghost next = ps.subrange(0, i as int + 1);
        assert(next.drop_last() =~= pre);
        assert(next.last() == paths@[i as int]@);
        if in_bundle(paths[i].as_str(), output_name, validate_only) {
            let p = paths[i].clone();
            out.push(p);
            assert(out@.map_values(|s: String| s@) =~= bundle_of(pre, output_name@, validate_only).push(
                next.last(),
            ));
        }
        i = i + 1;
    }
    assert(ps.subrange(0, paths@.len() as int) =~= ps);
    if out.len() == 0 {
        Err(BundleError::NoFiles)
    } else {
        Ok(out)
    }
}

/// The name a file travels under: its path relative to the project root,
/// with forward slashes.
pub fn bundle_name(relative: &str) -> (r: String)
    ensures
        r@ == forward_slashes(relative@),
{
    let n = relative.unicode_len();
    let mut out = String::new();
    let mut i: usize = 0;
    while i < n
        invariant
            n == relative@.len(),
            i <= n,
            out@ == forward_slashes(relative@.subrange(0, i as int)),
        decreases n - i,
    {
        let c = relative.get_char(i);
        if c == '\\' {
            out.append("/");
        } else {
            out.append(relative.substring_char(i, i + 1));
        }
        proof {
            reveal_strlit("/");
        }
        assert(forward_slashes(relative@.subrange(0, i as int + 1)) =~= forward_slashes(
            relative@.subrange(0, i as int),
        ).push(if c == '\\' { '/' } else { c }));
        i = i + 1;
    }
    assert(relative@.subrange(0, n as int) =~= relative@);
    out
}

} // verus!
