//! The build's error taxonomy. Every stage fails fast: the first error
//! aborts the whole build, so one value of this type is all a caller sees.

use vstd::prelude::*;

verus! {

/// What went wrong during a build.
#[derive(Clone, Copy, Debug, PartialEq, Eq, Structural)]
pub enum BuildError {
    /// A directory or file could not be read, or an output could not be
    /// written.
    IoError,
    /// A source file's contents are not well-formed structured data.
    DataFormatError,
    /// A template is missing, malformed, or could not be rendered against
    /// its bindings.
    TemplateError,
}

impl BuildError {
    /// A short diagnostic naming the failing stage.
    pub fn describe(&self) -> (r: String)
        ensures
            r@.len() > 0,
            *self == BuildError::IoError ==> r@ == "a directory or file could not be read or written"@,
            *self == BuildError::DataFormatError ==> r@ == "a data file is not well-formed JSON"@,
            *self == BuildError::TemplateError ==> r@ == "a template is missing or failed to render"@,
    {
        let msg = match self {
            BuildError::IoError => "a directory or file could not be read or written",
            BuildError::DataFormatError => "a data file is not well-formed JSON",
            BuildError::TemplateError => "a template is missing or failed to render",
        };
        proof {
            reveal_strlit("a directory or file could not be read or written");
            reveal_strlit("a data file is not well-formed JSON");
            reveal_strlit("a template is missing or failed to render");
        }
        String::from_str(msg)
    }
}

} // verus!
