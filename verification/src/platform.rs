//! Platform helpers behind the engine's file-system and asset-watching
//! callbacks: asset path assembly, MIME type lookup, the fixed charset
//! answer, and the modified-assets flag that drives live reload.
//!
//! The callbacks that actually touch the disk (existence checks, reads,
//! the file watcher) stay with the embedder; they hand paths and events in
//! here as plain values.

use vstd::prelude::*;
use vstd::string::StringExecFns;

verus! {

/// The MIME type `mime_guess` associates with a path, by its extension;
/// nothing when the path has no extension with a known mapping.  The
/// lookup is a fixed table keyed by the extension alone, so the result is
/// a function of the path.
pub uninterp spec fn mime_of(path: Seq<char>) -> Option<Seq<char>>;

/// Relies on `mime_guess::MimeGuess::from_path` (with its accessors
/// `first` and the `Mime` display form): the guessed MIME type comes from
/// a built-in extension table and depends on the path alone; an unknown or
/// missing extension yields nothing.
#[verifier::external_body]
fn guess_mime_first(path: &str) -> (r: Option<String>)
    ensures
        match r {
            Some(m) => mime_of(path@) == Some(m@),
            None => mime_of(path@) is None,
        },
{
    mime_guess::from_path(path).first().map(|m| m.to_string())
}

/// The MIME type answer for a looked-up path: the guess when there is
/// one, the engine's "unknown" marker otherwise.
pub open spec fn spec_mime_or_unknown(guess: Option<Seq<char>>) -> Seq<char> {
    match guess {
        Some(m) => m,
        None => "application/unknown"@,
    }
}

/// Resolves a MIME lookup result to the text handed to the engine: the
/// guessed type itself, or `application/unknown` when the lookup found
/// none.
pub fn mime_or_unknown(guess: Option<String>) -> (r: String)
    ensures
        r@ == spec_mime_or_unknown(match guess {
            Some(m) => Some(m@),
            None => None,
        }),
{
    match guess {
        Some(m) => m,
        None => String::from_str("application/unknown"),
    }
}

/// Answers the engine's MIME type query for a path: the type its
/// extension maps to, or `application/unknown`.
pub fn file_mime_type(path: &str) -> (r: String)
    ensures
        r@ == spec_mime_or_unknown(mime_of(path@)),
{
    mime_or_unknown(guess_mime_first(path))
}

/// Answers the engine's charset query: every asset is served as UTF-8.
pub fn file_charset() -> (r: String)
    ensures
        r@ == "utf-8"@,
{
    String::from_str("utf-8")
}

/// Joins the configured asset directory and an engine-relative path with
/// a single separator, the path the file-system callbacks look up.
pub fn join_asset_path(base: &str, rel: &str) -> (r: String)
    ensures
        r@ == base@ + "/"@ + rel@,
{
    let mut s = String::new();
    s.append(base);
    s.append("/");
    s.append(rel);
    s
}

/// Remembers whether any asset file changed since the last page load, so
/// the embedder can reload the view.  The embedder's file watcher reports
/// events in; finishing a page load clears the flag.
pub struct AssetTracker {
    modified: bool,
}

impl AssetTracker {
    /// Whether a modification has been reported and not yet absorbed by a
    /// page load.
    pub closed spec fn is_modified(&self) -> bool {
        self.modified
    }

    /// A fresh tracker: nothing modified yet.
    pub fn new() -> (r: AssetTracker)
        ensures
            !r.is_modified(),
    {
        AssetTracker { modified: false }
    }

    /// Notes one file-watcher event: a modification marks the assets
    /// dirty, any other event changes nothing.
    pub fn note_event(&mut self, is_modify: bool)
        ensures
            final(self).is_modified() == (old(self).is_modified() || is_modify),
    {
        if is_modify {
            self.modified = true;
        }
    }

    /// Absorbs a finished page load: the assets count as fresh again.
    pub fn mark_loaded(&mut self)
        ensures
            !final(self).is_modified(),
    {
        self.modified = false;
    }

    /// Whether the embedder should reload: some asset changed since the
    /// last finished load.
    pub fn assets_modified(&self) -> (r: bool)
        ensures
            r == self.is_modified(),
    {
        self.modified
    }
}

} // verus!
