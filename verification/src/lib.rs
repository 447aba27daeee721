//! A build-step for book documentation that annotates every chapter with
//! build provenance: the package name, the package version, and a
//! truncated source-control revision identifier.
//!
//! The package identity comes from a project manifest, preferring its
//! `package` table over its `workspace` table; the revision identifier is
//! truncated to a configured length; the two are composed with the version
//! into a single footer that is appended to every chapter of the content
//! tree.  A fact that is disabled or unavailable is simply left out, and
//! when nothing at all is available the tree is passed through unchanged.

use vstd::prelude::*;

pub mod book;
pub mod cli;
pub mod config;
pub mod footer;
pub mod manifest;
pub mod revision;

pub use book::{Book, BookItem, Chapter};
pub use config::Config;
pub use manifest::{CargoPackage, CargoToml, ManifestParseError};

use book::{annotate_book, annotated_book, annotated_item};
use footer::{compose_footer, spec_footer};
use revision::{spec_truncate_rev, truncate_revision};

verus! {

/// The annotation pass itself.
pub struct Processor;

/// The footer that a run composes from its resolved facts: the manifest's
/// name and version, and the revision identifier truncated to the
/// configured length — or `None` where the run leaves the book untouched.
pub open spec fn run_footer(cfg: Config, manifest: CargoToml, head_id: Option<&str>) -> Option<
    Seq<char>,
> {
    let rev = match head_id {
        Some(id) => Some(spec_truncate_rev(id@, cfg.commit_characters as nat)),
        None => None,
    };
    spec_footer(
        manifest@.name(),
        rev,
        manifest@.version(),
        cfg.package_name,
        cfg.git_commit,
        cfg.package_version,
    )
}

impl Processor {
    /// The name under which the preprocessor's configuration is looked up.
    pub fn name(&self) -> (r: &'static str)
        ensures
            r@ == "build-annotations"@,
    {
        "build-annotations"
    }

    /// Appends the footer to this item's content if it is a chapter, and
    /// to every chapter nested under it; a separator is left unchanged.
    pub fn handle_bookitem(&self, item: &mut BookItem, footer: &str)
        ensures
            annotated_item(*old(item), *final(item), footer@),
    {
        let mut tmp = BookItem::Separator;
        core::mem::swap(item, &mut tmp);
        *item = book::annotate_item(tmp, footer);
    }

    /// One annotation run: truncates the revision identifier, composes the
    /// footer from the enabled-and-available facts, and appends it to
    /// every chapter of the book.  Where no fragment is available the book
    /// is returned unmodified.
    pub fn run(&self, cfg: &Config, manifest: &CargoToml, head_id: Option<&str>, book: Book) -> (r:
        Book)
        ensures
            match run_footer(*cfg, *manifest, head_id) {
                Some(f) => annotated_book(book, r, f),
                None => r == book,
            },
    {
        let name = manifest.name();
        let version = manifest.version();
        let revision: Option<String> = match head_id {
            Some(id) => Some(truncate_revision(id, cfg.commit_characters)),
            None => None,
        };
        let rev: Option<&str> = match &revision {
            Some(s) => Some(s.as_str()),
            None => None,
        };
        let footer = compose_footer(
            name,
            rev,
            version,
            cfg.package_name,
            cfg.git_commit,
            cfg.package_version,
        );
        match footer {
            Some(f) => {
                let mut out = book;
                annotate_book(&mut out, f.as_str());
                out
            },
            None => book,
        }
    }
}

} // verus!
