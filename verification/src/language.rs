//! The display language that is threaded through the state. Strings are
//! resolved elsewhere; here it is only chosen, switched and carried.

use vstd::prelude::*;

verus! {

/// The display language.
#[derive(Clone, Copy, Debug, PartialEq, Eq, Structural)]
pub enum Language {
    English,
    Korean,
}

/// The key whose text does not come from the catalogue: the label of the
/// button that switches the language.
pub open spec fn toggle_key() -> Seq<char> {
    "language-toggle"@
}

/// The views of a sequence of strings, in order.
pub open spec fn texts(strings: Seq<String>) -> Seq<Seq<char>> {
    strings.map_values(|s: String| s@)
}

impl Language {
    /// The language for a list of requested language codes: Korean where
    /// `ko` is among them, English otherwise.
    pub open spec fn spec_preferred(codes: Seq<Seq<char>>) -> Language {
        if codes.contains("ko"@) {
            Language::Korean
        } else {
            Language::English
        }
    }

    /// The other language.
    pub open spec fn spec_toggled(self) -> Language {
        match self {
            Language::English => Language::Korean,
            Language::Korean => Language::English,
        }
    }

    /// The label of the language switch: the short name of the language it
    /// switches to.
    pub open spec fn spec_toggle_label(self) -> Seq<char> {
        match self {
            Language::English => "Ko"@,
            Language::Korean => "En"@,
        }
    }

    /// The language for a list of requested language codes.
    pub fn preferred(codes: &Vec<String>) -> (language: Language)
        ensures
            language == Language::spec_preferred(texts(codes@)),
    {
        let korean = "ko".to_owned();
        let mut i: usize = 0;
        while i < codes.len()
            invariant
                i <= codes.len(),
                korean@ == "ko"@,
                forall|j: int| 0 <= j < i ==> texts(codes@)[j] != "ko"@,
            decreases codes.len() - i,
        {
            if codes[i] == korean {
                assert(texts(codes@)[i as int] == "ko"@);
                return Language::Korean;
            }
            i += 1;
        }
        Language::English
    }

    /// The other language.
    pub fn toggled(self) -> (other: Language)
        ensures
            other == self.spec_toggled(),
    {
        match self {
            Language::English => Language::Korean,
            Language::Korean => Language::English,
        }
    }

    /// The label of the language switch.
    pub fn toggle_label(self) -> (label: &'static str)
        ensures
            label@ == self.spec_toggle_label(),
    {
        match self {
            Language::English => "Ko",
            Language::Korean => "En",
        }
    }

    /// The text for `key` where it is fixed by the language alone, and `None`
    /// for every key that the catalogue resolves.
    pub fn fixed_text(key: &str, language: Language) -> (text: Option<&'static str>)
        ensures
            key@ == toggle_key() ==> text is Some && text->0@ == language.spec_toggle_label(),
            key@ != toggle_key() ==> text is None,
    {
        let toggle = "language-toggle".to_owned();
        if key.to_owned() == toggle {
            Some(language.toggle_label())
        } else {
            None
        }
    }
}

/// Calls `i18n_embed::DesktopLanguageRequester::requested_languages` and
/// hands back the language subtag of each identifier. What the list holds
/// depends on the machine's locale settings, so nothing is claimed of it.
#[verifier::external_body]
fn requested_language_codes() -> (codes: Vec<String>) {
    i18n_embed::DesktopLanguageRequester::requested_languages()
        .iter()
        .map(|id| id.language.as_str().to_owned())
        .collect()
}

impl Default for Language {
    /// The language the system's locale settings ask for.
    fn default() -> (language: Language) {
        let codes = requested_language_codes();
        Language::preferred(&codes)
    }
}

/// Switching the language twice gives the first language back.
pub proof fn lemma_toggle_is_an_involution(language: Language)
    ensures
        language.spec_toggled().spec_toggled() == language,
        language.spec_toggled() != language,
{
}

} // verus!
