//! The text of the voice lists: a one-line list for the free engines and
//! pages for the premium ones.

use vstd::prelude::*;
use vstd::string::StringExecFns;
use crate::text::{join2, joined};
use crate::voices::{PollyVoice, PremiumLanguage, VoiceData};

verus! {

pub open spec fn quoted(s: Seq<char>) -> Seq<char> {
    seq!['`'] + s + seq!['`']
}

/// The items, each in backticks, separated by ", ".
pub open spec fn code_list_text(items: Seq<Seq<char>>) -> Seq<char> {
    joined(items.map_values(|s: Seq<char>| quoted(s)), ", "@)
}

/// Lists the items, each in backticks, separated by ", ".
pub fn code_list(items: &Vec<String>) -> (r: String)
    ensures
        r@ == code_list_text(items@.map_values(|s: String| s@)),
{
    proof {
        reveal_strlit("`");
        reveal_strlit(", ");
    }
    let ghost views = items@.map_values(|s: String| s@).map_values(|s: Seq<char>| quoted(s));
    let mut out = String::new();
    let mut i: usize = 0;
    while i < items.len()
        invariant
            i <= items@.len(),
            views == items@.map_values(|s: String| s@).map_values(|s: Seq<char>| quoted(s)),
            out@ == joined(views.subrange(0, i as int), ", "@),
        decreases items@.len() - i,
    {
        proof {
            reveal_strlit("`");
            reveal_strlit(", ");
        }
        let ghost before = out@;
        if i > 0 {
            out = out.concat(", ");
        }
        out = out.concat("`").concat(items[i].as_str()).concat("`");
        assert(views[i as int] == quoted(items@[i as int]@));
        assert(views.subrange(0, i + 1).drop_last() =~= views.subrange(0, i as int));
        assert(views.subrange(0, i + 1).last() == views[i as int]);
        if i > 0 {
            assert(out@ =~= before + ", "@ + quoted(items@[i as int]@));
        } else {
            assert(out@ =~= quoted(items@[i as int]@));
            assert(views.subrange(0, 1) =~= seq![views[0]]);
        }
        i = i + 1;
    }
    assert(views.subrange(0, items@.len() as int) =~= views);
    out
}

/// The codes of the gTTS voices, in order.
pub fn gtts_codes(data: &VoiceData) -> (r: Vec<String>)
    ensures
        r@.map_values(|s: String| s@) == data.gtts_voices@.map_values(|v: crate::voices::GttsVoice| v.code@),
{
    let ghost target = data.gtts_voices@.map_values(|v: crate::voices::GttsVoice| v.code@);
    let mut out: Vec<String> = Vec::new();
    let mut i: usize = 0;
    while i < data.gtts_voices.len()
        invariant
            i <= data.gtts_voices@.len(),
            target == data.gtts_voices@.map_values(|v: crate::voices::GttsVoice| v.code@),
            out@.map_values(|s: String| s@) == target.subrange(0, i as int),
            out@.len() == i,
        decreases data.gtts_voices@.len() - i,
    {
        let ghost before = out@;
        out.push(data.gtts_voices[i].code.clone());
        assert(out@ =~= before.push(out@[i as int]));
        assert(out@.map_values(|s: String| s@) =~= before.map_values(|s: String| s@).push(target[i as int]));
        assert(out@.map_values(|s: String| s@) =~= target.subrange(0, i + 1));
        i = i + 1;
    }
    assert(target.subrange(0, data.gtts_voices@.len() as int) =~= target);
    out
}

/// The line of a gCloud voice.
pub open spec fn gcloud_line(language: Seq<char>, variant: Seq<char>, gender: Seq<char>) -> Seq<char> {
    language + " "@ + variant + " ("@ + gender + ")"@
}

/// The page of a gCloud language: one line per variant.
pub open spec fn gcloud_page(language: Seq<char>, variants: Seq<crate::voices::VoiceVariant>) -> Seq<char>
    decreases variants.len(),
{
    if variants.len() == 0 {
        Seq::empty()
    } else {
        gcloud_page(language, variants.drop_last()) + gcloud_line(
            language,
            variants.last().variant@,
            variants.last().gender@,
        ) + "\n"@
    }
}

/// One page per gCloud language, in order.
pub fn gcloud_pages(data: &VoiceData) -> (r: Vec<String>)
    ensures
        r@.map_values(|s: String| s@) == data.premium_voices@.map_values(
            |l: PremiumLanguage| gcloud_page(l.language@, l.variants@),
        ),
{
    proof {
        reveal_strlit(" ");
        reveal_strlit(" (");
        reveal_strlit(")\n");
        reveal_strlit("\n");
        reveal_strlit(")");
    }
    let ghost target = data.premium_voices@.map_values(|l: PremiumLanguage| gcloud_page(l.language@, l.variants@));
    let mut pages: Vec<String> = Vec::new();
    let mut i: usize = 0;
    while i < data.premium_voices.len()
        invariant
            i <= data.premium_voices@.len(),
            target == data.premium_voices@.map_values(|l: PremiumLanguage| gcloud_page(l.language@, l.variants@)),
            pages@.map_values(|s: String| s@) == target.subrange(0, i as int),
            pages@.len() == i,
        decreases data.premium_voices@.len() - i,
    {
        let lang = &data.premium_voices[i];
        let mut page = String::new();
        let mut j: usize = 0;
        while j < lang.variants.len()
            invariant
                j <= lang.variants@.len(),
                page@ == gcloud_page(lang.language@, lang.variants@.subrange(0, j as int)),
            decreases lang.variants@.len() - j,
        {
            let v = &lang.variants[j];
            let ghost before = page@;
            proof {
                reveal_strlit(" ");
                reveal_strlit(" (");
                reveal_strlit(")\n");
                reveal_strlit("\n");
                reveal_strlit(")");
            }
            page = page.concat(lang.language.as_str()).concat(" ").concat(v.variant.as_str()).concat(" (").concat(
                v.gender.as_str(),
            ).concat(")\n");
            assert(lang.variants@.subrange(0, j + 1).drop_last() =~= lang.variants@.subrange(0, j as int));
            assert(page@ =~= before + gcloud_line(lang.language@, v.variant@, v.gender@) + "\n"@);
            assert(lang.variants@.subrange(0, j + 1).last() == lang.variants@[j as int]);
            assert(page@ =~= gcloud_page(lang.language@, lang.variants@.subrange(0, j + 1)));
            j = j + 1;
        }
        assert(lang.variants@.subrange(0, lang.variants@.len() as int) =~= lang.variants@);
        let ghost before = pages@;
        pages.push(page);
        assert(pages@ =~= before.push(pages@[i as int]));
        assert(pages@.map_values(|s: String| s@) =~= before.map_values(|s: String| s@).push(target[i as int]));
        assert(pages@.map_values(|s: String| s@) =~= target.subrange(0, i + 1));
        i = i + 1;
    }
    assert(target.subrange(0, data.premium_voices@.len() as int) =~= target);
    pages
}

/// The line of a Polly voice.
pub open spec fn polly_line(v: PollyVoice) -> Seq<char> {
    v.id@ + " - "@ + v.language_name@ + " ("@ + v.gender@ + ")"@
}

/// The lines of the Polly voices of `language`, in order.
pub open spec fn polly_page(voices: Seq<PollyVoice>, language: Seq<char>) -> Seq<char>
    decreases voices.len(),
{
    if voices.len() == 0 {
        Seq::empty()
    } else {
        polly_page(voices.drop_last(), language) + if voices.last().language_name@ == language {
            polly_line(voices.last()) + "\n"@
        } else {
            Seq::empty()
        }
    }
}

/// Whether voice `i` is the first of its language.
pub open spec fn first_of_language(voices: Seq<PollyVoice>, i: int) -> bool {
    forall|k: int| 0 <= k < i ==> #[trigger] voices[k].language_name@ != voices[i].language_name@
}

/// One page per Polly language among the first `n` voices, in the order the
/// languages first appear; each page holds every voice of its language.
pub open spec fn polly_pages_upto(voices: Seq<PollyVoice>, n: int) -> Seq<Seq<char>>
    decreases n,
{
    if n <= 0 {
        Seq::empty()
    } else {
        polly_pages_upto(voices, n - 1) + if first_of_language(voices, n - 1) {
            seq![polly_page(voices, voices[n - 1].language_name@)]
        } else {
            Seq::empty()
        }
    }
}

fn polly_line_string(v: &PollyVoice) -> (r: String)
    ensures
        r@ == polly_line(*v),
{
    proof {
        reveal_strlit(" - ");
        reveal_strlit(" (");
        reveal_strlit(")");
    }
    join2(v.id.as_str(), " - ").concat(v.language_name.as_str()).concat(" (").concat(v.gender.as_str()).concat(")")
}

/// The Polly voices grouped into one page per language.
pub fn polly_pages(data: &VoiceData) -> (r: Vec<String>)
    ensures
        r@.map_values(|s: String| s@) == polly_pages_upto(data.polly_voices@, data.polly_voices@.len() as int),
{
    proof {
        reveal_strlit("\n");
    }
    let voices = &data.polly_voices;
    let mut pages: Vec<String> = Vec::new();
    let mut i: usize = 0;
    while i < voices.len()
        invariant
            i <= voices@.len(),
            pages@.map_values(|s: String| s@) == polly_pages_upto(voices@, i as int),
        decreases voices@.len() - i,
    {
        let language = &voices[i].language_name;
        let mut first = true;
        let mut k: usize = 0;
        while k < i
            invariant
                k <= i,
                i < voices@.len(),
                *language == voices@[i as int].language_name,
                first == (forall|t: int| 0 <= t < k ==> #[trigger] voices@[t].language_name@ != voices@[i as int].language_name@),
            decreases i - k,
        {
            if voices[k].language_name == *language {
                first = false;
            }
            k = k + 1;
        }
        if first {
            let mut page = String::new();
            let mut j: usize = 0;
            while j < voices.len()
                invariant
                    j <= voices@.len(),
                    i < voices@.len(),
                    *language == voices@[i as int].language_name,
                    page@ == polly_page(voices@.subrange(0, j as int), language@),
                decreases voices@.len() - j,
            {
                assert(voices@.subrange(0, j + 1).drop_last() =~= voices@.subrange(0, j as int));
                proof {
                    reveal_strlit("\n");
                }
                if voices[j].language_name == *language {
                    let line = polly_line_string(&voices[j]);
                    page = page.concat(line.as_str()).concat("\n");
                    assert(page@ =~= polly_page(voices@.subrange(0, j + 1), language@));
                } else {
                    assert(page@ =~= polly_page(voices@.subrange(0, j + 1), language@));
                }
                j = j + 1;
            }
            assert(voices@.subrange(0, voices@.len() as int) =~= voices@);
            let ghost before = pages@;
            let ghost page_view = page@;
            pages.push(page);
            assert(pages@ =~= before.push(pages@[before.len() as int]));
            assert(pages@.map_values(|s: String| s@) =~= before.map_values(|s: String| s@).push(page_view));
        }
        assert(pages@.map_values(|s: String| s@) =~= polly_pages_upto(voices@, i + 1));
        i = i + 1;
    }
    pages
}

/// The line of the Polly voice `id`, if there is one.
pub fn polly_voice_line(data: &VoiceData, id: &String) -> (r: Option<String>)
    ensures
        match r {
            Some(line) => crate::voices::polly_index(*data, id@) matches Some(i) && line@ == polly_line(
                data.polly_voices@[i],
            ),
            None => crate::voices::polly_index(*data, id@) is None,
        },
{
    match crate::voices::find_polly(data, id) {
        Some(i) => Some(polly_line_string(&data.polly_voices[i])),
        None => None,
    }
}

/// The line of the gCloud voice "language variant", if there is one.
pub fn premium_voice_line(data: &VoiceData, voice: &String) -> (r: Option<String>)
    ensures
        match r {
            Some(line) => crate::voices::split_at_space(voice@) matches Some((language, variant))
                && crate::voices::premium_gender(*data, language, variant) matches Some(gender) && line@
                == gcloud_line(language, variant, gender),
            None => match crate::voices::split_at_space(voice@) {
                Some((language, variant)) => crate::voices::premium_gender(*data, language, variant) is None,
                None => true,
            },
        },
{
    proof {
        reveal_strlit(" ");
        reveal_strlit(" (");
        reveal_strlit(")");
    }
    match crate::voices::premium_lookup(data, voice) {
        Some((language, variant, gender)) => Some(
            join2(language.as_str(), " ").concat(variant.as_str()).concat(" (").concat(gender.as_str()).concat(")"),
        ),
        None => None,
    }
}

/// The current Polly voice `voice` as a line, and the Polly pages; `None`
/// if the engine has no such voice.
pub fn list_polly_voices(data: &VoiceData, voice: &String) -> (r: Option<(String, Vec<String>)>)
    ensures
        match r {
            Some((current, pages)) => crate::voices::polly_index(*data, voice@) matches Some(i) && current@
                == polly_line(data.polly_voices@[i]) && pages@.map_values(|s: String| s@) == polly_pages_upto(
                data.polly_voices@,
                data.polly_voices@.len() as int,
            ),
            None => crate::voices::polly_index(*data, voice@) is None,
        },
{
    match polly_voice_line(data, voice) {
        Some(current) => Some((current, polly_pages(data))),
        None => None,
    }
}

/// The current gCloud voice `voice` as a line, and the gCloud pages; `None`
/// if the engine has no such voice.
pub fn list_gcloud_voices(data: &VoiceData, voice: &String) -> (r: Option<(String, Vec<String>)>)
    ensures
        match r {
            Some((current, pages)) => (crate::voices::split_at_space(voice@) matches Some((language, variant))
                && crate::voices::premium_gender(*data, language, variant) matches Some(gender) && current@
                == gcloud_line(language, variant, gender)) && pages@.map_values(|s: String| s@)
                == data.premium_voices@.map_values(|l: PremiumLanguage| gcloud_page(l.language@, l.variants@)),
            None => !(crate::voices::split_at_space(voice@) matches Some((language, variant))
                && crate::voices::premium_gender(*data, language, variant) is Some),
        },
{
    match premium_voice_line(data, voice) {
        Some(current) => Some((current, gcloud_pages(data))),
        None => None,
    }
}

/// How the voices of an engine are listed.
#[derive(Debug)]
pub enum VoiceList {
    /// All on one line.
    Inline(String),
    /// Page by page, with the current voice.
    Pages { current: String, pages: Vec<String> },
}

/// The voice list of the engine `mode`, where `voice` is the current voice;
/// `None` for a premium engine that has no such voice.
pub fn voices(data: &VoiceData, mode: crate::voices::TTSMode, voice: &String) -> (r: Option<VoiceList>)
    ensures
        match mode {
            crate::voices::TTSMode::gTTS => r matches Some(VoiceList::Inline(text)) && text@ == code_list_text(
                data.gtts_voices@.map_values(|v: crate::voices::GttsVoice| v.code@),
            ),
            crate::voices::TTSMode::eSpeak => r matches Some(VoiceList::Inline(text)) && text@ == code_list_text(
                data.espeak_voices@.map_values(|s: String| s@),
            ),
            crate::voices::TTSMode::Polly => (r is Some) == (crate::voices::polly_index(*data, voice@) is Some)
                && (r is None || r matches Some(VoiceList::Pages { .. })),
            crate::voices::TTSMode::gCloud => (r is None || r matches Some(VoiceList::Pages { .. })),
        },
        r matches Some(VoiceList::Pages { current, pages }) ==> (mode is Polly && list_polly_result(*data, *voice, current@, pages@)) || (mode is gCloud && list_gcloud_result(*data, *voice, current@, pages@)),
{
    match mode {
        crate::voices::TTSMode::gTTS => {
            let codes = gtts_codes(data);
            Some(VoiceList::Inline(code_list(&codes)))
        },
        crate::voices::TTSMode::eSpeak => Some(VoiceList::Inline(code_list(&data.espeak_voices))),
        crate::voices::TTSMode::Polly => match list_polly_voices(data, voice) {
            Some((current, pages)) => Some(VoiceList::Pages { current, pages }),
            None => None,
        },
        crate::voices::TTSMode::gCloud => match list_gcloud_voices(data, voice) {
            Some((current, pages)) => Some(VoiceList::Pages { current, pages }),
            None => None,
        },
    }
}

pub open spec fn list_polly_result(data: VoiceData, voice: String, current: Seq<char>, pages: Seq<String>) -> bool {
    crate::voices::polly_index(data, voice@) matches Some(i) && current == polly_line(data.polly_voices@[i])
        && pages.map_values(|s: String| s@) == polly_pages_upto(data.polly_voices@, data.polly_voices@.len() as int)
}

pub open spec fn list_gcloud_result(data: VoiceData, voice: String, current: Seq<char>, pages: Seq<String>) -> bool {
    (crate::voices::split_at_space(voice@) matches Some((language, variant)) && crate::voices::premium_gender(
        data,
        language,
        variant,
    ) matches Some(gender) && current == gcloud_line(language, variant, gender)) && pages.map_values(
        |s: String| s@,
    ) == data.premium_voices@.map_values(|l: PremiumLanguage| gcloud_page(l.language@, l.variants@))
}

} // verus!
