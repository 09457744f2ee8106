//! The build orchestrator: one linear, fail-fast pass that loads every
//! source file, renders one page per character and then the index page,
//! and says where each rendered text belongs in the output directory.
//! Writing the files, like reading the sources, is the caller's I/O.

use vstd::prelude::*;
use crate::entity::links_of;
use crate::error::BuildError;
use crate::json::json_wf;
use crate::loader::{load_all, SourceFile};
use crate::paths::{index_path, index_path_of, page_path, page_path_of, stem_of};
use crate::render::{render_character_page, render_index_page};

verus! {

/// One output file: where it goes and the text it holds.
pub struct Page {
    /// The output path, `<output_dir>/...`.
    pub path: String,
    /// The rendered HTML text.
    pub html: String,
}

/// Everything a successful build emits: one page per character, in load
/// order, and the index page.
pub struct BuildOutput {
    /// The character pages, one per source file, in listing order.
    pub pages: Vec<Page>,
    /// The index page.
    pub index: Page,
}

/// Whether every source file's text is well-formed JSON.
pub open spec fn all_sources_wf(files: Seq<SourceFile>) -> bool {
    forall|i: int| 0 <= i < files.len() ==> json_wf(#[trigger] files[i].text@)
}

/// Whether `pages` sit at the paths a build over `files` into `dir` owes:
/// one page per file, in order, at `<dir>/<stem>.html`.
pub open spec fn pages_placed(pages: Seq<Page>, files: Seq<SourceFile>, dir: Seq<char>) -> bool {
    &&& pages.len() == files.len()
    &&& forall|i: int|
        0 <= i < files.len() ==> #[trigger] pages[i].path@ == page_path_of(
            dir,
            stem_of(files[i].name@),
        )
}

/// Runs one build over the given source files against a compiled template
/// set: load, render each character page, render the index. The first
/// failure aborts the whole pass. A malformed source file — and nothing
/// else — yields `DataFormatError`; a failed render yields
/// `TemplateError`; on success every page carries its output path.
pub fn build_site(t: &tera::Tera, files: &Vec<SourceFile>, output_dir: &str) -> (r: Result<
    BuildOutput,
    BuildError,
>)
    ensures
        (r matches Err(e) && e == BuildError::DataFormatError) <==> !all_sources_wf(files@),
        r matches Err(e) ==> e == BuildError::DataFormatError || e == BuildError::TemplateError,
        r matches Ok(out) ==> all_sources_wf(files@) && pages_placed(
            out.pages@,
            files@,
            output_dir@,
        ) && out.index.path@ == index_path_of(output_dir@),
{
    let characters = match load_all(files) {
        Ok(cs) => cs,
        Err(e) => {
            return Err(e);
        },
    };
    let mut pages: Vec<Page> = Vec::new();
    let n = characters.len();
    let mut i: usize = 0;
    while i < n
        invariant
            n == characters@.len(),
            i <= n,
            all_sources_wf(files@),
            crate::loader::loaded_from(characters@, files@),
            pages@.len() == i,
            forall|j: int|
                0 <= j < i ==> #[trigger] pages@[j].path@ == page_path_of(
                    output_dir@,
                    stem_of(files@[j].name@),
                ),
        decreases n - i,
    {
        let character = &characters[i];
        let html = match render_character_page(t, character) {
            Ok(html) => html,
            Err(e) => {
                return Err(e);
            },
        };
        let path = page_path(output_dir, character.id.as_str());
        pages.push(Page { path, html });
        i = i + 1;
    }
    let links = links_of(&characters);
    let index_html = match render_index_page(t, &links) {
        Ok(html) => html,
        Err(e) => {
            return Err(e);
        },
    };
    let index = Page { path: index_path(output_dir), html: index_html };
    Ok(BuildOutput { pages, index })
}

/// Rebuilding against unchanged inputs targets unchanged paths: any two
/// successful builds over the same source files and output directory
/// place the same number of pages at the same paths, and the index at the
/// same path. (What the pages hold is the template engine's output, which
/// this crate does not model.)
pub proof fn lemma_build_paths_deterministic(
    a: BuildOutput,
    b: BuildOutput,
    files: Seq<SourceFile>,
    dir: Seq<char>,
)
    requires
        pages_placed(a.pages@, files, dir),
        pages_placed(b.pages@, files, dir),
        a.index.path@ == index_path_of(dir),
        b.index.path@ == index_path_of(dir),
    ensures
        a.pages@.len() == b.pages@.len(),
        forall|i: int| 0 <= i < a.pages@.len() ==> a.pages@[i].path@ == b.pages@[i].path@,
        a.index.path@ == b.index.path@,
{
}

} // verus!
