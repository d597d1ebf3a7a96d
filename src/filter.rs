//! Which filesystem events should start a build.
use vstd::prelude::*;
use vstd::string::*;
use crate::text::{extension, file_name, file_name_of, path_extension, same_text, text_in};

verus! {

/// What happened to the affected paths.
#[derive(Clone, Copy, Debug, PartialEq, Eq, Structural)]
pub enum EventKind {
    Modified,
    Created,
    Other,
}

/// One event reported by the filesystem notifier.
pub struct FsEvent {
    pub kind: EventKind,
    pub paths: Vec<String>,
}

/// What a watch session reacts to: the extensions that matter and the name
/// of the artifact that builds write.
pub struct WatchConfig {
    pub output_name: String,
    pub extensions: Vec<String>,
}

/// The characters of each text in a list.
pub open spec fn texts(v: Seq<String>) -> Seq<Seq<char>> {
    v.map_values(|s: String| s@)
}

/// The extensions that start a build in compile mode.
pub open spec fn compile_extensions() -> Seq<Seq<char>> {
    seq!["tex"@, "bib"@, "sty"@, "cls"@, "png"@, "jpg"@, "jpeg"@, "pdf"@]
}

/// The extensions that start a validation in verify mode.
pub open spec fn verify_extensions() -> Seq<Seq<char>> {
    seq!["tex"@]
}

/// A path starts a build when its extension is watched and it is not the
/// artifact that builds write.
pub open spec fn path_qualifies(p: Seq<char>, exts: Seq<Seq<char>>, output: Seq<char>) -> bool {
    match path_extension(p) {
        Some(e) => exts.contains(e) && file_name_of(p) != output,
        None => false,
    }
}

/// An event matters when it modifies or creates something and at least one
/// of its paths qualifies.
pub open spec fn relevant(
    kind: EventKind,
    paths: Seq<Seq<char>>,
    exts: Seq<Seq<char>>,
    output: Seq<char>,
) -> bool {
    (kind == EventKind::Modified || kind == EventKind::Created) && exists|i: int|
        0 <= i < paths.len() && #[trigger] path_qualifies(paths[i], exts, output)
}

impl WatchConfig {
    /// Compile mode: sources, bibliography, styles, classes and images.
    pub fn compile_watch(output_name: String) -> (r: WatchConfig)
        ensures
            r.output_name@ == output_name@,
            texts(r.extensions@) == compile_extensions(),
    {
        let mut exts: Vec<String> = Vec::new();
        exts.push(String::from_str("tex"));
        exts.push(String::from_str("bib"));
        exts.push(String::from_str("sty"));
        exts.push(String::from_str("cls"));
        exts.push(String::from_str("png"));
        exts.push(String::from_str("jpg"));
        exts.push(String::from_str("jpeg"));
        exts.push(String::from_str("pdf"));
        assert(texts(exts@) =~= compile_extensions());
        WatchConfig { output_name, extensions: exts }
    }

    /// Verify mode: document sources only.
    pub fn verify_watch(output_name: String) -> (r: WatchConfig)
        ensures
            r.output_name@ == output_name@,
            texts(r.extensions@) == verify_extensions(),
    {
        let mut exts: Vec<String> = Vec::new();
        exts.push(String::from_str("tex"));
        assert(texts(exts@) =~= verify_extensions());
        WatchConfig { output_name, extensions: exts }
    }

    /// Whether `e` is one of the watched extensions.
    pub fn watches(&self, e: &str) -> (r: bool)
        ensures
            r == texts(self.extensions@).contains(e@),
    {
        text_in(&self.extensions, e)
    }

    /// Whether one path, on its own, would start a build.
    pub fn qualifies(&self, p: &str) -> (r: bool)
        ensures
            r == path_qualifies(p@, texts(self.extensions@), self.output_name@),
    {
        match extension(p) {
            Some(e) => {
                if self.watches(e) {
                    !same_text(file_name(p), self.output_name.as_str())
                } else {
                    false
                }
            },
            None => false,
        }
    }
}

/// Decides whether an event should start a build under `config`.
pub fn is_relevant(event: &FsEvent, config: &WatchConfig) -> (r: bool)
    ensures
        r == relevant(
            event.kind,
            texts(event.paths@),
            texts(config.extensions@),
            config.output_name@,
        ),
        !(event.kind == EventKind::Modified || event.kind == EventKind::Created) ==> !r,
        event.paths@.len() == 1 && file_name_of(event.paths@[0]@) == config.output_name@ ==> !r,
{
    let ghost ps = texts(event.paths@);
    let ghost exts = texts(config.extensions@);
    let ghost out = config.output_name@;
    match event.kind {
        EventKind::Other => { return false; },
        _ => {},
    }
    let mut i: usize = 0;
    while i < event.paths.len()
        invariant
            i <= event.paths@.len(),
            ps == texts(event.paths@),
            exts == texts(config.extensions@),
            out == config.output_name@,
            event.kind != EventKind::Other,
            forall|j: int| 0 <= j < i ==> !path_qualifies(ps[j], exts, out),
        decreases event.paths@.len() - i,
    {
        if config.qualifies(event.paths[i].as_str()) {
            assert(path_qualifies(ps[i as int], exts, out));
            return true;
        }
        i = i + 1;
    }
    false
}

} // verus!
