//! The data loader: turns a directory listing, handed in as file names
//! paired with their text, into the in-memory entities of one build.
//! A single malformed file aborts the whole load: fail-fast, no partial
//! result.

use vstd::prelude::*;
use crate::entity::Character;
use crate::error::BuildError;
use crate::json::{json_wf, parse_json};
use crate::names::{display_name_of, to_character_name};
use crate::paths::{file_stem, is_json_name, lemma_json_stems_distinct, stem_of};

verus! {

/// One file of the source directory: its name (without any directory
/// part) and its full text.
pub struct SourceFile {
    /// The file's name, e.g. `hwoarang.json`.
    pub name: String,
    /// The file's contents, read as text.
    pub text: String,
}

/// Whether `characters` is exactly the successful load of `files`: one
/// entity per file in listing order, the identifier the file name's stem
/// and the display name its normalization.
pub open spec fn loaded_from(characters: Seq<Character>, files: Seq<SourceFile>) -> bool {
    &&& characters.len() == files.len()
    &&& forall|i: int|
        0 <= i < files.len() ==> #[trigger] characters[i].id@ == stem_of(files[i].name@)
            && characters[i].name@ == display_name_of(stem_of(files[i].name@))
}

/// Loads every source file into an entity. Succeeds exactly when every
/// file's text is well-formed JSON; the first malformed file aborts the
/// load with `DataFormatError` and no partial list escapes.
pub fn load_all(files: &Vec<SourceFile>) -> (r: Result<Vec<Character>, BuildError>)
    ensures
        r is Ok <==> (forall|i: int| 0 <= i < files@.len() ==> json_wf(#[trigger] files@[i].text@)),
        r matches Ok(characters) ==> loaded_from(characters@, files@),
        r matches Err(e) ==> e == BuildError::DataFormatError,
{
    let mut characters: Vec<Character> = Vec::new();
    let n = files.len();
    let mut i: usize = 0;
    while i < n
        invariant
            n == files@.len(),
            i <= n,
            characters@.len() == i,
            forall|j: int| 0 <= j < i ==> json_wf(#[trigger] files@[j].text@),
            forall|j: int|
                0 <= j < i ==> #[trigger] characters@[j].id@ == stem_of(files@[j].name@)
                    && characters@[j].name@ == display_name_of(stem_of(files@[j].name@)),
        decreases n - i,
    {
        let file = &files[i];
        let moves = match parse_json(file.text.as_str()) {
            Ok(v) => v,
            Err(_) => {
                return Err(BuildError::DataFormatError);
            },
        };
        let id = file_stem(file.name.as_str());
        let name = to_character_name(id.as_str());
        characters.push(Character { id, name, moves });
        i = i + 1;
    }
    Ok(characters)
}

/// A load over a directory of distinct `.json` files gives every entity a
/// distinct identifier: its own file name's stem.
pub proof fn lemma_load_distinct_ids(characters: Seq<Character>, files: Seq<SourceFile>)
    requires
        loaded_from(characters, files),
        forall|i: int| 0 <= i < files.len() ==> is_json_name(#[trigger] files[i].name@),
        forall|i: int, j: int|
            0 <= i < j < files.len() ==> files[i].name@ != files[j].name@,
    ensures
        characters.len() == files.len(),
        forall|i: int|
            0 <= i < files.len() ==> #[trigger] characters[i].id@ == stem_of(files[i].name@),
        forall|i: int, j: int|
            0 <= i < j < characters.len() ==> characters[i].id@ != characters[j].id@,
{
    assert forall|i: int, j: int|
        0 <= i < j < characters.len() implies characters[i].id@ != characters[j].id@ by {
        lemma_json_stems_distinct(files[i].name@, files[j].name@);
    }
}

} // verus!
