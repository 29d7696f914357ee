//! Voice suggestions while a user types: the voices whose display name starts
//! with what was typed, closest first.

use vstd::prelude::*;
use vstd::string::{StrSliceExecFns, StringExecFns};
use crate::text::join2;
use crate::voices::{TTSMode, VoiceData};

verus! {

/// The smallest of three numbers.
pub open spec fn min3(a: nat, b: nat, c: nat) -> nat {
    if a <= b && a <= c {
        a
    } else if b <= c {
        b
    } else {
        c
    }
}

/// The Levenshtein distance: the fewest single-character insertions,
/// deletions and substitutions that turn `a` into `b`.
pub open spec fn edit_distance(a: Seq<char>, b: Seq<char>) -> nat
    decreases a.len() + b.len(),
{
    if a.len() == 0 {
        b.len()
    } else if b.len() == 0 {
        a.len()
    } else {
        min3(
            edit_distance(a.drop_last(), b) + 1,
            edit_distance(a, b.drop_last()) + 1,
            edit_distance(a.drop_last(), b.drop_last()) + if a.last() == b.last() {
                0nat
            } else {
                1nat
            },
        )
    }
}

/// Relies on `strsim::levenshtein`, which counts the fewest insertions,
/// deletions and substitutions of characters between its arguments.
#[verifier::external_body]
fn levenshtein(a: &str, b: &str) -> (r: usize)
    ensures
        r == edit_distance(a@, b@),
{
    strsim::levenshtein(a, b)
}

/// A suggested voice: what the user sees and what is filled in.
#[derive(Clone, Debug)]
pub struct VoiceChoice {
    pub name: String,
    pub value: String,
}

pub type ChoiceView = (Seq<char>, Seq<char>);

impl View for VoiceChoice {
    type V = ChoiceView;

    open spec fn view(&self) -> ChoiceView {
        (self.name@, self.value@)
    }
}

pub open spec fn choices_view(v: Seq<VoiceChoice>) -> Seq<ChoiceView> {
    v.map_values(|c: VoiceChoice| c@)
}

pub open spec fn is_prefix_of(prefix: Seq<char>, s: Seq<char>) -> bool {
    prefix.len() <= s.len() && s.subrange(0, prefix.len() as int) == prefix
}

/// The choices whose name starts with `typed`, in order.
pub open spec fn matching(choices: Seq<ChoiceView>, typed: Seq<char>) -> Seq<ChoiceView>
    decreases choices.len(),
{
    if choices.len() == 0 {
        Seq::empty()
    } else {
        matching(choices.drop_last(), typed) + if is_prefix_of(typed, choices.last().0) {
            seq![choices.last()]
        } else {
            Seq::empty()
        }
    }
}

/// The choices whose name is at distance `d` from `typed`, in order.
pub open spec fn at_distance(choices: Seq<ChoiceView>, typed: Seq<char>, d: nat) -> Seq<ChoiceView>
    decreases choices.len(),
{
    if choices.len() == 0 {
        Seq::empty()
    } else {
        at_distance(choices.drop_last(), typed, d) + if edit_distance(choices.last().0, typed) == d {
            seq![choices.last()]
        } else {
            Seq::empty()
        }
    }
}

/// The choices at distances below `bound`, closest first; choices at equal
/// distance keep their order.
pub open spec fn ranked(choices: Seq<ChoiceView>, typed: Seq<char>, bound: nat) -> Seq<ChoiceView>
    decreases bound,
{
    if bound == 0 {
        Seq::empty()
    } else {
        ranked(choices, typed, (bound - 1) as nat) + at_distance(choices, typed, (bound - 1) as nat)
    }
}

/// Every choice is at a distance below `bound`.
pub open spec fn distances_below(choices: Seq<ChoiceView>, typed: Seq<char>, bound: nat) -> bool {
    forall|i: int| 0 <= i < choices.len() ==> edit_distance(#[trigger] choices[i].0, typed) < bound
}

fn starts_with(s: &str, prefix: &str) -> (r: bool)
    ensures
        r == is_prefix_of(prefix@, s@),
{
    let n = prefix.unicode_len();
    if n > s.unicode_len() {
        return false;
    }
    let mut i: usize = 0;
    while i < n
        invariant
            n == prefix@.len(),
            n <= s@.len(),
            i <= n,
            forall|k: int| 0 <= k < i ==> s@[k] == prefix@[k],
        decreases n - i,
    {
        if s.get_char(i) != prefix.get_char(i) {
            assert(s@.subrange(0, n as int)[i as int] != prefix@[i as int]);
            return false;
        }
        i = i + 1;
    }
    assert(s@.subrange(0, n as int) =~= prefix@);
    true
}

fn copy_choice(c: &VoiceChoice) -> (r: VoiceChoice)
    ensures
        r@ == c@,
{
    VoiceChoice { name: c.name.clone(), value: c.value.clone() }
}

/// The choices whose name starts with `typed`, ordered by their distance to
/// it, closest first; choices at equal distance keep their order.
pub fn rank_choices(choices: &Vec<VoiceChoice>, typed: &str) -> (r: Vec<VoiceChoice>)
    ensures
        exists|bound: nat|
            distances_below(matching(choices_view(choices@), typed@), typed@, bound) && choices_view(r@)
                == ranked(matching(choices_view(choices@), typed@), typed@, bound),
{
    let ghost all = choices_view(choices@);
    let mut kept: Vec<VoiceChoice> = Vec::new();
    let mut dists: Vec<usize> = Vec::new();
    let mut most: usize = 0;
    let mut i: usize = 0;
    while i < choices.len()
        invariant
            i <= choices@.len(),
            all == choices_view(choices@),
            choices_view(kept@) == matching(all.subrange(0, i as int), typed@),
            dists@.len() == kept@.len(),
            forall|k: int| 0 <= k < kept@.len() ==> dists@[k] == edit_distance(#[trigger] kept@[k].name@, typed@),
            forall|k: int| 0 <= k < dists@.len() ==> #[trigger] dists@[k] <= most,
        decreases choices@.len() - i,
    {
        assert(all.subrange(0, i + 1).drop_last() =~= all.subrange(0, i as int));
        let c = &choices[i];
        if starts_with(c.name.as_str(), typed) {
            let d = levenshtein(c.name.as_str(), typed);
            kept.push(copy_choice(c));
            dists.push(d);
            if d > most {
                most = d;
            }
            assert(choices_view(kept@) =~= matching(all.subrange(0, i as int), typed@) + seq![all[i as int]]);
        } else {
            assert(choices_view(kept@) =~= matching(all.subrange(0, i as int), typed@) + Seq::<ChoiceView>::empty());
        }
        i = i + 1;
    }
    assert(all.subrange(0, choices@.len() as int) =~= all);
    let ghost m = choices_view(kept@);
    let mut out: Vec<VoiceChoice> = Vec::new();
    let mut d: usize = 0;
    loop
        invariant
            m == choices_view(kept@),
            m == matching(all, typed@),
            all == choices_view(choices@),
            dists@.len() == kept@.len(),
            forall|k: int| 0 <= k < kept@.len() ==> dists@[k] == edit_distance(#[trigger] kept@[k].name@, typed@),
            forall|k: int| 0 <= k < dists@.len() ==> #[trigger] dists@[k] <= most,
            d <= most,
            choices_view(out@) == ranked(m, typed@, d as nat),
        decreases most - d,
    {
        let mut j: usize = 0;
        while j < kept.len()
            invariant
                m == choices_view(kept@),
                dists@.len() == kept@.len(),
                forall|k: int| 0 <= k < kept@.len() ==> dists@[k] == edit_distance(#[trigger] kept@[k].name@, typed@),
                j <= kept@.len(),
                choices_view(out@) == ranked(m, typed@, d as nat) + at_distance(m.subrange(0, j as int), typed@, d as nat),
            decreases kept@.len() - j,
        {
            assert(m.subrange(0, j + 1).drop_last() =~= m.subrange(0, j as int));
            assert(m[j as int] == kept@[j as int]@);
            let ghost before = choices_view(out@);
            if dists[j] == d {
                out.push(copy_choice(&kept[j]));
                assert(choices_view(out@) =~= before.push(kept@[j as int]@));
            }
            j = j + 1;
        }
        assert(m.subrange(0, kept@.len() as int) =~= m);
        assert(choices_view(out@) == ranked(m, typed@, (d + 1) as nat));
        if d == most {
            proof {
                assert(distances_below(m, typed@, (most + 1) as nat)) by {
                    assert forall|k: int| 0 <= k < m.len() implies edit_distance(#[trigger] m[k].0, typed@) < most + 1 by {
                        assert(m[k] == kept@[k]@);
                        assert(dists@[k] <= most);
                    }
                }
                let b: nat = (most + 1) as nat;
                assert(distances_below(m, typed@, b) && choices_view(out@) == ranked(m, typed@, b));
            }
            return out;
        }
        d = d + 1;
    }
}

pub open spec fn polly_choice(id: Seq<char>, name: Seq<char>, gender: Seq<char>) -> ChoiceView {
    (id + " - "@ + name + " ("@ + gender + ")"@, id)
}

pub open spec fn gcloud_choice(language: Seq<char>, variant: Seq<char>, gender: Seq<char>) -> ChoiceView {
    (language + " "@ + variant + " ("@ + gender + ")"@, language + " "@ + variant)
}

/// The gCloud choices of one language, in the order of its variants.
pub open spec fn language_choices(language: Seq<char>, variants: Seq<crate::voices::VoiceVariant>) -> Seq<ChoiceView> {
    variants.map_values(|v: crate::voices::VoiceVariant| gcloud_choice(language, v.variant@, v.gender@))
}

/// The gCloud choices of all languages, language by language.
pub open spec fn premium_choices(languages: Seq<crate::voices::PremiumLanguage>) -> Seq<ChoiceView>
    decreases languages.len(),
{
    if languages.len() == 0 {
        Seq::empty()
    } else {
        premium_choices(languages.drop_last()) + language_choices(languages.last().language@, languages.last().variants@)
    }
}

/// Every voice of the engine `mode` as a choice.
pub open spec fn mode_choices(data: VoiceData, mode: TTSMode) -> Seq<ChoiceView> {
    match mode {
        TTSMode::gTTS => data.gtts_voices@.map_values(|v: crate::voices::GttsVoice| (v.name@, v.code@)),
        TTSMode::eSpeak => data.espeak_voices@.map_values(|v: String| (v@, v@)),
        TTSMode::Polly => data.polly_voices@.map_values(
            |v: crate::voices::PollyVoice| polly_choice(v.id@, v.name@, v.gender@),
        ),
        TTSMode::gCloud => premium_choices(data.premium_voices@),
    }
}

fn push_choice(out: &mut Vec<VoiceChoice>, name: String, value: String)
    ensures
        choices_view(final(out)@) == choices_view(old(out)@).push((name@, value@)),
{
    out.push(VoiceChoice { name, value });
    assert(choices_view(final(out)@) =~= choices_view(old(out)@).push((name@, value@)));
}

/// Every voice of the engine `mode` as a choice.
pub fn voice_choices(data: &VoiceData, mode: TTSMode) -> (r: Vec<VoiceChoice>)
    ensures
        choices_view(r@) == mode_choices(*data, mode),
{
    proof {
        reveal_strlit(" - ");
        reveal_strlit(" (");
        reveal_strlit(")");
        reveal_strlit(" ");
    }
    let mut out: Vec<VoiceChoice> = Vec::new();
    match mode {
        TTSMode::gTTS => {
            let ghost target = mode_choices(*data, mode);
            let mut i: usize = 0;
            while i < data.gtts_voices.len()
                invariant
                    i <= data.gtts_voices@.len(),
                    target == data.gtts_voices@.map_values(|v: crate::voices::GttsVoice| (v.name@, v.code@)),
                    choices_view(out@) == target.subrange(0, i as int),
                decreases data.gtts_voices@.len() - i,
            {
                let v = &data.gtts_voices[i];
                push_choice(&mut out, v.name.clone(), v.code.clone());
                assert(target.subrange(0, i + 1) =~= target.subrange(0, i as int).push(target[i as int]));
                i = i + 1;
            }
            assert(target.subrange(0, data.gtts_voices@.len() as int) =~= target);
        },
        TTSMode::eSpeak => {
            let ghost target = mode_choices(*data, mode);
            let mut i: usize = 0;
            while i < data.espeak_voices.len()
                invariant
                    i <= data.espeak_voices@.len(),
                    target == data.espeak_voices@.map_values(|v: String| (v@, v@)),
                    choices_view(out@) == target.subrange(0, i as int),
                decreases data.espeak_voices@.len() - i,
            {
                let v = &data.espeak_voices[i];
                push_choice(&mut out, v.clone(), v.clone());
                assert(target.subrange(0, i + 1) =~= target.subrange(0, i as int).push(target[i as int]));
                i = i + 1;
            }
            assert(target.subrange(0, data.espeak_voices@.len() as int) =~= target);
        },
        TTSMode::Polly => {
            let ghost target = mode_choices(*data, mode);
            let mut i: usize = 0;
            while i < data.polly_voices.len()
                invariant
                    i <= data.polly_voices@.len(),
                    target == data.polly_voices@.map_values(
                        |v: crate::voices::PollyVoice| polly_choice(v.id@, v.name@, v.gender@),
                    ),
                    choices_view(out@) == target.subrange(0, i as int),
                decreases data.polly_voices@.len() - i,
            {
                let v = &data.polly_voices[i];
                let name = join2(v.id.as_str(), " - ").concat(v.name.as_str()).concat(" (").concat(v.gender.as_str()).concat(")");
                push_choice(&mut out, name, v.id.clone());
                assert(target.subrange(0, i + 1) =~= target.subrange(0, i as int).push(target[i as int]));
                i = i + 1;
            }
            assert(target.subrange(0, data.polly_voices@.len() as int) =~= target);
        },
        TTSMode::gCloud => {
            let mut i: usize = 0;
            while i < data.premium_voices.len()
                invariant
                    i <= data.premium_voices@.len(),
                    choices_view(out@) == premium_choices(data.premium_voices@.subrange(0, i as int)),
                decreases data.premium_voices@.len() - i,
            {
                let lang = &data.premium_voices[i];
                let ghost before = choices_view(out@);
                let ghost target = language_choices(lang.language@, lang.variants@);
                let mut j: usize = 0;
                while j < lang.variants.len()
                    invariant
                        j <= lang.variants@.len(),
                        target == language_choices(lang.language@, lang.variants@),
                        choices_view(out@) == before + target.subrange(0, j as int),
                    decreases lang.variants@.len() - j,
                {
                    let v = &lang.variants[j];
                    let value = join2(lang.language.as_str(), " ").concat(v.variant.as_str());
                    let name = join2(value.as_str(), " (").concat(v.gender.as_str()).concat(")");
                    push_choice(&mut out, name, value);
                    assert(target.subrange(0, j + 1) =~= target.subrange(0, j as int).push(target[j as int]));
                    assert(before + target.subrange(0, j + 1) =~= (before + target.subrange(0, j as int)).push(target[j as int]));
                    j = j + 1;
                }
                assert(target.subrange(0, lang.variants@.len() as int) =~= target);
                assert(data.premium_voices@.subrange(0, i + 1).drop_last() =~= data.premium_voices@.subrange(0, i as int));
                i = i + 1;
            }
            assert(data.premium_voices@.subrange(0, data.premium_voices@.len() as int) =~= data.premium_voices@);
        },
    }
    out
}

/// The voices of the engine `mode` whose display name starts with `typed`,
/// closest to it first.
pub fn voice_autocomplete(data: &VoiceData, mode: TTSMode, typed: &str) -> (r: Vec<VoiceChoice>)
    ensures
        exists|bound: nat|
            distances_below(matching(mode_choices(*data, mode), typed@), typed@, bound) && choices_view(r@)
                == ranked(matching(mode_choices(*data, mode), typed@), typed@, bound),
{
    let choices = voice_choices(data, mode);
    rank_choices(&choices, typed)
}

} // verus!
