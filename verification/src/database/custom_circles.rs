//! How the name of a circle is written into tags.

use vstd::prelude::*;
use crate::text::same_text;

verus! {

/// Which name of a circle goes into the tags.
#[derive(Debug, Clone, Copy, PartialEq, Eq, Structural)]
pub enum CirclePreferenceType {
    /// Always the English name.
    ForceEn,
    /// Always the Japanese name.
    ForceJp,
    /// A name that the user gave.
    Custom,
    /// The circle's code.
    UseCode,
}

/// The preference that a stored word stands for.
pub open spec fn preference_named(s: Seq<char>) -> Option<CirclePreferenceType> {
    if s == "force_en"@ {
        Some(CirclePreferenceType::ForceEn)
    } else if s == "force_jp"@ {
        Some(CirclePreferenceType::ForceJp)
    } else if s == "custom"@ {
        Some(CirclePreferenceType::Custom)
    } else if s == "use_code"@ {
        Some(CirclePreferenceType::UseCode)
    } else {
        None
    }
}

impl CirclePreferenceType {
    /// The word under which a preference is stored.
    pub open spec fn name(self) -> Seq<char> {
        match self {
            CirclePreferenceType::ForceEn => "force_en"@,
            CirclePreferenceType::ForceJp => "force_jp"@,
            CirclePreferenceType::Custom => "custom"@,
            CirclePreferenceType::UseCode => "use_code"@,
        }
    }

    /// Reads a stored word; a word that is not known stands for no
    /// preference.
    pub fn from_str(s: &str) -> (r: Option<Self>)
        ensures
            r == preference_named(s@),
    {
        if same_text(s, "force_en") {
            Some(CirclePreferenceType::ForceEn)
        } else if same_text(s, "force_jp") {
            Some(CirclePreferenceType::ForceJp)
        } else if same_text(s, "custom") {
            Some(CirclePreferenceType::Custom)
        } else if same_text(s, "use_code") {
            Some(CirclePreferenceType::UseCode)
        } else {
            None
        }
    }

    /// The word under which the preference is stored.
    pub fn as_str(&self) -> (r: &'static str)
        ensures
            r@ == self.name(),
    {
        match self {
            CirclePreferenceType::ForceEn => "force_en",
            CirclePreferenceType::ForceJp => "force_jp",
            CirclePreferenceType::Custom => "custom",
            CirclePreferenceType::UseCode => "use_code",
        }
    }
}

/// Round trip: the word of a preference is read back as that
/// preference.
pub proof fn stored_word_reads_back(p: CirclePreferenceType)
    ensures
        preference_named(p.name()) == Some(p),
{
    reveal_strlit("force_en");
    reveal_strlit("force_jp");
    reveal_strlit("custom");
    reveal_strlit("use_code");
    assert("force_en"@[6] == 'e');
    assert("force_jp"@[6] == 'j');
    assert("custom"@.len() == 6);
    assert("use_code"@[0] == 'u');
    assert("force_en"@[0] == 'f');
    assert("force_jp"@[0] == 'f');
}

} // verus!
