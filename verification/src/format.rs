use crate::text::same_text;
use vstd::prelude::*;

verus! {

/// The text format of a serialized document.
#[derive(Debug, Clone, Copy, PartialEq, Eq)]
pub enum SpecFormat {
    Json,
    Yaml,
}

impl SpecFormat {
    /// The format that a file name's extension stands for.
    pub open spec fn of_extension(extension: Seq<char>) -> SpecFormat {
        if extension == "yaml"@ || extension == "yml"@ {
            SpecFormat::Yaml
        } else {
            SpecFormat::Json
        }
    }

    /// The format that a file name's extension, given in lower case, stands
    /// for: YAML for `yaml` and `yml`, JSON for every other, an empty one too.
    pub fn from_extension(extension: &str) -> (format: Self)
        ensures
            format == Self::of_extension(extension@),
    {
        if same_text(extension, "yaml") || same_text(extension, "yml") {
            SpecFormat::Yaml
        } else {
            SpecFormat::Json
        }
    }
}

} // verus!
