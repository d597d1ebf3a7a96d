//! Where installed versions live, which of them are stale, and whether a
//! published release is newer than the running one.
use vstd::prelude::*;
use vstd::string::*;
use crate::text::{is_separator, same_text};

verus! {

/// `comp` appended to `base` as a further path component.
pub open spec fn join_spec(base: Seq<char>, comp: Seq<char>) -> Seq<char> {
    if base.len() == 0 {
        comp
    } else if is_separator(base.last()) {
        base + comp
    } else {
        base + seq!['/'] + comp
    }
}

/// The tool's own directory under a home directory, or under the current
/// directory when no home is known.
pub open spec fn qtex_dir_spec(home: Option<Seq<char>>) -> Seq<char> {
    match home {
        Some(h) => join_spec(h, ".qtex"@),
        None => join_spec("."@, ".qtex"@),
    }
}

/// The directory that holds one subdirectory per installed version.
pub open spec fn versions_dir_spec(home: Option<Seq<char>>) -> Seq<char> {
    join_spec(qtex_dir_spec(home), "versions"@)
}

/// The characters of an optional text.
pub open spec fn opt_text(s: Option<String>) -> Option<Seq<char>> {
    match s {
        Some(t) => Some(t@),
        None => None,
    }
}

/// Relies on `dirs::home_dir`: the user's home directory when the platform
/// reports one, as text. What it is depends on the environment.
#[verifier::external_body]
fn home_dir_text() -> (r: Option<String>) {
    match dirs::home_dir() {
        Some(p) => Some(p.to_string_lossy().into_owned()),
        None => None,
    }
}

/// `comp` appended to `base` as a further path component.
pub fn join_path(base: &str, comp: &str) -> (r: String)
    ensures
        r@ == join_spec(base@, comp@),
{
    let n = base.unicode_len();
    if n == 0 {
        return String::from_str(comp);
    }
    let last = base.get_char(n - 1);
    let mut out = String::from_str(base);
    if !(last == '/' || last == '\\') {
        out.append("/");
        proof {
            reveal_strlit("/");
        }
    }
    out.append(comp);
    assert(base@.last() == last);
    out
}

/// The tool's directory for a given home directory.
pub fn qtex_dir_in(home: Option<String>) -> (r: String)
    ensures
        r@ == qtex_dir_spec(opt_text(home)),
{
    match home {
        Some(h) => join_path(h.as_str(), ".qtex"),
        None => join_path(".", ".qtex"),
    }
}

/// The versions directory for a given home directory.
pub fn versions_dir_in(home: Option<String>) -> (r: String)
    ensures
        r@ == versions_dir_spec(opt_text(home)),
{
    let d = qtex_dir_in(home);
    join_path(d.as_str(), "versions")
}

/// The tool's directory under the user's home directory.
pub fn get_qtex_dir() -> (r: String)
    ensures
        exists|h: Option<Seq<char>>| r@ == qtex_dir_spec(h),
{
    let home = home_dir_text();
    let r = qtex_dir_in(home);
    assert(r@ == qtex_dir_spec(opt_text(home)));
    r
}

/// The versions directory under the user's home directory.
pub fn get_versions_dir() -> (r: String)
    ensures
        exists|h: Option<Seq<char>>| r@ == versions_dir_spec(h),
{
    let home = home_dir_text();
    let r = versions_dir_in(home);
    assert(r@ == versions_dir_spec(opt_text(home)));
    r
}

#[verifier::external_type_specification]
#[verifier::external_body]
pub struct ExVersion(semver::Version);

/// Whether `semver::Version::parse` accepts a text.
pub uninterp spec fn is_semver(s: Seq<char>) -> bool;

/// Relies on `semver::Version::parse`: whether a text parses depends on the
/// text alone, and the empty text does not.
#[verifier::external_body]
fn parse_version(s: &str) -> (r: Option<semver::Version>)
    ensures
        r is Some == is_semver(s@),
        s@.len() == 0 ==> r is None,
{
    semver::Version::parse(s).ok()
}

/// Relies on semver's ordering of versions: whether `a` comes before `b`.
#[verifier::external_body]
fn precedes(a: &semver::Version, b: &semver::Version) -> (r: bool) {
    a < b
}

/// Whether a version directory is stale, given whether its name parses as a
/// version, whether the running version's text does, whether the first
/// comes before the second in semver order (when both parse), and whether
/// the two texts are the same.
pub open spec fn stale_spec(name_parses: bool, current_parses: bool, older: bool, same: bool) -> bool {
    name_parses && if current_parses {
        older
    } else {
        !same
    }
}

/// Staleness of `name` while `current` runs, for a given semver order.
pub open spec fn stale_for(name: Seq<char>, current: Seq<char>, older: bool) -> bool {
    stale_spec(is_semver(name), is_semver(current), older, name == current)
}

/// Decides staleness from what parsing and comparing the two texts gave.
pub fn stale_given(name_parses: bool, current_parses: bool, older: bool, same: bool) -> (r: bool)
    ensures
        r == stale_spec(name_parses, current_parses, older, same),
{
    name_parses && if current_parses {
        older
    } else {
        !same
    }
}

/// Whether the installed version directory `name` should be removed while
/// `current` runs: only version names are ever removed; an older one is
/// removed, and when `current` is no version, any other one.
pub fn is_stale_version(name: &str, current: &str) -> (r: bool)
    ensures
        exists|older: bool|
            r == #[trigger] stale_for(name@, current@, older),
        !is_semver(name@) ==> !r,
        is_semver(name@) && !is_semver(current@) ==> r == (name@ != current@),
{
    let same = same_text(name, current);
    match parse_version(name) {
        None => {
            let r = stale_given(false, false, false, same);
            assert(r == stale_for(name@, current@, false));
            r
        },
        Some(v) => match parse_version(current) {
            Some(c) => {
                let older = precedes(&v, &c);
                let r = stale_given(true, true, older, same);
                assert(r == stale_for(name@, current@, older));
                r
            },
            None => {
                let r = stale_given(true, false, false, same);
                assert(r == stale_for(name@, current@, false));
                r
            },
        },
    }
}

/// How many `v` characters a text starts with.
pub open spec fn leading_vs(s: Seq<char>) -> nat
    decreases s.len(),
{
    if s.len() > 0 && s[0] == 'v' {
        1 + leading_vs(s.drop_first())
    } else {
        0
    }
}

/// A release tag without its leading `v` characters.
pub open spec fn tag_version(tag: Seq<char>) -> Seq<char> {
    tag.subrange(leading_vs(tag) as int, tag.len() as int)
}

proof fn lemma_leading_vs(s: Seq<char>, i: int)
    requires
        0 <= i <= s.len(),
        forall|j: int| 0 <= j < i ==> s[j] == 'v',
    ensures
        leading_vs(s) >= i,
        (i == s.len() || s[i] != 'v') ==> leading_vs(s) == i,
    decreases i,
{
    if i > 0 {
        lemma_leading_vs(s.drop_first(), i - 1);
    } else if s.len() > 0 && s[0] == 'v' {
    }
}

/// The version that a release tag names: the tag without leading `v`s.
pub fn strip_tag(tag: &str) -> (r: &str)
    ensures
        r@ == tag_version(tag@),
{
    let n = tag.unicode_len();
    let mut i: usize = 0;
    while i < n && tag.get_char(i) == 'v'
        invariant
            n == tag@.len(),
            i <= n,
            forall|j: int| 0 <= j < i ==> tag@[j] == 'v',
        decreases n - i,
    {
        i = i + 1;
    }
    proof {
        lemma_leading_vs(tag@, i as int);
    }
    tag.substring_char(i, n)
}

/// What a release check found.
#[derive(Clone, Copy, Debug, PartialEq, Eq, Structural)]
pub enum UpdateStatus {
    /// The release names no version.
    Unknown,
    /// The running version is the released one.
    UpToDate,
    /// Another version is released.
    Available,
}

/// Compares the latest release tag with the running version.
pub fn update_status(tag: &str, current: &str) -> (r: UpdateStatus)
    ensures
        tag_version(tag@).len() == 0 ==> r == UpdateStatus::Unknown,
        tag_version(tag@).len() > 0 && tag_version(tag@) == current@ ==> r == UpdateStatus::UpToDate,
        tag_version(tag@).len() > 0 && tag_version(tag@) != current@ ==> r == UpdateStatus::Available,
{
    let latest = strip_tag(tag);
    if latest.unicode_len() == 0 {
        UpdateStatus::Unknown
    } else if same_text(latest, current) {
        UpdateStatus::UpToDate
    } else {
        UpdateStatus::Available
    }
}

} // verus!
