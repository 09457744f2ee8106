//! The data model: one character's frame data as loaded from disk, and
//! the lightweight projection of it that the index page links to.

use vstd::prelude::*;

verus! {

/// One character's frame data, held in memory for the span of one build.
pub struct Character {
    /// Identifier derived from the source file name's stem, as stored on
    /// disk (lowercase, hyphenated).
    pub id: String,
    /// Human-readable display name derived from `id` by the normalizer.
    pub name: String,
    /// The structured frame-data payload; opaque to the pipeline, passed
    /// through unmodified to the template.
    pub moves: serde_json::Value,
}

/// The `{url, name}` projection of a [`Character`] that the index page
/// navigates by.
pub struct CharacterLink {
    /// The character's identifier, which is also its page's URL stem.
    pub url: String,
    /// The character's display name.
    pub name: String,
}

/// Projects characters to index links: same order, one link per
/// character, the identifier as URL and the display name carried over.
pub fn links_of(characters: &Vec<Character>) -> (links: Vec<CharacterLink>)
    ensures
        links@.len() == characters@.len(),
        forall|i: int|
            0 <= i < characters@.len() ==> links@[i].url@ == characters@[i].id@
                && links@[i].name@ == characters@[i].name@,
{
    let mut links: Vec<CharacterLink> = Vec::new();
    let n = characters.len();
    let mut i: usize = 0;
    while i < n
        invariant
            n == characters@.len(),
            i <= n,
            links@.len() == i,
            forall|j: int|
                0 <= j < i ==> links@[j].url@ == characters@[j].id@ && links@[j].name@
                    == characters@[j].name@,
        decreases n - i,
    {
        let c = &characters[i];
        let link = CharacterLink { url: clone_string(&c.id), name: clone_string(&c.name) };
        links.push(link);
        i = i + 1;
    }
    links
}

/// Copies a string; the copy's characters are the original's.
pub fn clone_string(s: &String) -> (r: String)
    ensures
        r@ == s@,
{
    String::from_str(s.as_str())
}

} // verus!
