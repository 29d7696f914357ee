//! The target language of message translation.

use vstd::prelude::*;
use vstd::string::StringExecFns;
use crate::locale::localize;
use crate::text::{join_with, joined, replace_all, replaced};

verus! {

/// The lower-case form of a string, as Unicode defines it.
pub uninterp spec fn lower_of(s: Seq<char>) -> Seq<char>;

/// Relies on `str::to_lowercase`: the result depends on the characters alone.
#[verifier::external_body]
fn lowercase(s: &str) -> (r: String)
    ensures
        r@ == lower_of(s@),
{
    s.to_lowercase()
}

/// The language codes the translation service offers, in lower case.
pub fn lowercase_languages(codes: &Vec<String>) -> (r: Vec<String>)
    ensures
        r@.len() == codes@.len(),
        forall|i: int| 0 <= i < codes@.len() ==> #[trigger] r@[i]@ == lower_of(codes@[i]@),
{
    let mut out: Vec<String> = Vec::new();
    let mut i: usize = 0;
    while i < codes.len()
        invariant
            i <= codes@.len(),
            out@.len() == i,
            forall|k: int| 0 <= k < i ==> #[trigger] out@[k]@ == lower_of(codes@[k]@),
        decreases codes@.len() - i,
    {
        out.push(lowercase(codes[i].as_str()));
        i = i + 1;
    }
    out
}

/// The answer to a change of the target language.
#[derive(Debug)]
pub enum LanguageReply {
    /// Store the language and say so.
    Changed(String),
    /// Show the languages on offer under this title.
    Offer { title: String, languages: String },
}

pub open spec fn offered(languages: Seq<String>, lang: Seq<char>) -> bool {
    exists|i: int| 0 <= i < languages.len() && #[trigger] languages[i]@ == lang
}

/// Decides a change of the target language to `lang`: accepted if it is one
/// of `languages`, with a hint appended when `translating`; otherwise the
/// languages on offer are shown.
pub fn translation_lang(
    catalog: Option<&gettext::Catalog>,
    lang: &Option<String>,
    languages: &Vec<String>,
    translating: bool,
) -> (r: LanguageReply)
    ensures
        match r {
            LanguageReply::Changed(_) => lang matches Some(l) && offered(languages@, l@),
            LanguageReply::Offer { .. } => !(lang matches Some(l) && offered(languages@, l@)),
        },
        catalog is None ==> match r {
            LanguageReply::Changed(text) => lang matches Some(l) && text@ == replaced(
                "The target translation language is now: {}"@,
                "{}"@,
                l@,
            ) + if translating {
                "You may want to enable translation with `/set translation on`"@
            } else {
                Seq::empty()
            },
            LanguageReply::Offer { title, languages: list } => title@
                == "DeepL Translation - Supported languages"@ && list@ == "```"@ + joined(
                languages@.map_values(|s: String| s@),
                ", "@,
            ) + "```"@,
        },
{
    proof {
        reveal_strlit("The target translation language is now: {}");
        reveal_strlit("{}");
        reveal_strlit("You may want to enable translation with `/set translation on`");
        reveal_strlit("DeepL Translation - Supported languages");
        reveal_strlit("```");
        reveal_strlit(", ");
    }
    let mut found = false;
    match lang {
        Some(l) => {
            let mut i: usize = 0;
            while i < languages.len()
                invariant
                    i <= languages@.len(),
                    !found ==> forall|k: int| 0 <= k < i ==> languages@[k]@ != l@,
                    found ==> offered(languages@, l@),
                decreases languages@.len() - i,
            {
                if languages[i] == *l {
                    found = true;
                }
                i = i + 1;
            }
        },
        None => {},
    }
    match lang {
        Some(l) => {
            if found {
                let t = localize(catalog, "The target translation language is now: {}");
                let mut text = replace_all(t.as_str(), "{}", l.as_str());
                if translating {
                    let hint = localize(catalog, "You may want to enable translation with `/set translation on`");
                    text = text.concat(hint.as_str());
                }
                return LanguageReply::Changed(text);
            }
        },
        None => {},
    }
    let title = localize(catalog, "DeepL Translation - Supported languages");
    let list = join_with(languages, ", ");
    LanguageReply::Offer { title, languages: String::from_str("```").concat(list.as_str()).concat("```") }
}

} // verus!
