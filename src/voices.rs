//! The voices each TTS mode offers, how they are named, and the paginated
//! voice list.

use vstd::prelude::*;
use vstd::string::{StrSliceExecFns, StringExecFns};
use crate::locale::localize;
use crate::text::{join2, replace_all, replaced};

verus! {

/// A text-to-speech engine.
#[allow(non_camel_case_types)]
#[derive(Clone, Copy, Debug, PartialEq, Eq, Structural)]
pub enum TTSMode {
    gTTS,
    Polly,
    eSpeak,
    gCloud,
}

impl TTSMode {
    /// Whether the engine is reserved for premium subscribers.
    pub fn is_premium(self) -> (r: bool)
        ensures
            r == (self is Polly || self is gCloud),
    {
        match self {
            TTSMode::Polly | TTSMode::gCloud => true,
            TTSMode::gTTS | TTSMode::eSpeak => false,
        }
    }
}

/// A voice of the Polly engine.
#[derive(Clone, Debug)]
pub struct PollyVoice {
    pub id: String,
    pub name: String,
    pub language_name: String,
    pub gender: String,
}

/// A voice variant of a gCloud language, with its gender.
#[derive(Clone, Debug)]
pub struct VoiceVariant {
    pub variant: String,
    pub gender: String,
}

/// A gCloud language and its variants.
#[derive(Clone, Debug)]
pub struct PremiumLanguage {
    pub language: String,
    pub variants: Vec<VoiceVariant>,
}

/// A gTTS voice: its language code and display name.
#[derive(Clone, Debug)]
pub struct GttsVoice {
    pub code: String,
    pub name: String,
}

/// The voices every engine offers.
#[derive(Clone, Debug)]
pub struct VoiceData {
    pub gtts_voices: Vec<GttsVoice>,
    pub espeak_voices: Vec<String>,
    pub polly_voices: Vec<PollyVoice>,
    pub premium_voices: Vec<PremiumLanguage>,
}

/// `s` split at its first space, if it has one.
pub open spec fn split_at_space(s: Seq<char>) -> Option<(Seq<char>, Seq<char>)> {
    if exists|i: int| 0 <= i < s.len() && s[i] == ' ' {
        let i = choose|i: int| 0 <= i < s.len() && s[i] == ' ' && forall|k: int| 0 <= k < i ==> s[k] != ' ';
        Some((s.subrange(0, i), s.subrange(i + 1, s.len() as int)))
    } else {
        None
    }
}

/// Splits `s` at its first space, as `str::split_once(' ')` does.
pub fn split_once_space(s: &str) -> (r: Option<(String, String)>)
    ensures
        match r {
            Some((a, b)) => split_at_space(s@) == Some((a@, b@)),
            None => split_at_space(s@) is None,
        },
{
    let n = s.unicode_len();
    let mut i: usize = 0;
    while i < n
        invariant
            n == s@.len(),
            i <= n,
            forall|k: int| 0 <= k < i ==> s@[k] != ' ',
        decreases n - i,
    {
        if s.get_char(i) == ' ' {
            let head = String::from_str(s.substring_char(0, i));
            let tail = String::from_str(s.substring_char(i + 1, n));
            proof {
                let j = choose|j: int| 0 <= j < s@.len() && s@[j] == ' ' && forall|k: int| 0 <= k < j ==> s@[k] != ' ';
                if j < i {
                } else if j > i {
                    assert(s@[i as int] != ' ');
                }
            }
            return Some((head, tail));
        }
        i = i + 1;
    }
    None
}

/// The first entry of the gCloud language `language`, if there is one.
pub open spec fn language_index(data: VoiceData, language: Seq<char>) -> Option<int> {
    if exists|i: int| 0 <= i < data.premium_voices@.len() && #[trigger] data.premium_voices@[i].language@ == language {
        Some(
            choose|i: int|
                0 <= i < data.premium_voices@.len() && data.premium_voices@[i].language@ == language && forall|k: int|
                    0 <= k < i ==> #[trigger] data.premium_voices@[k].language@ != language,
        )
    } else {
        None
    }
}

/// The first entry of `variant` among `variants`, if there is one.
pub open spec fn variant_index(variants: Seq<VoiceVariant>, variant: Seq<char>) -> Option<int> {
    if exists|j: int| 0 <= j < variants.len() && #[trigger] variants[j].variant@ == variant {
        Some(
            choose|j: int|
                0 <= j < variants.len() && variants[j].variant@ == variant && forall|k: int|
                    0 <= k < j ==> #[trigger] variants[k].variant@ != variant,
        )
    } else {
        None
    }
}

/// The first Polly voice with the id `id`, if there is one.
pub open spec fn polly_index(data: VoiceData, id: Seq<char>) -> Option<int> {
    if exists|i: int| 0 <= i < data.polly_voices@.len() && #[trigger] data.polly_voices@[i].id@ == id {
        Some(
            choose|i: int|
                0 <= i < data.polly_voices@.len() && data.polly_voices@[i].id@ == id && forall|k: int|
                    0 <= k < i ==> #[trigger] data.polly_voices@[k].id@ != id,
        )
    } else {
        None
    }
}

/// The gender of the gCloud voice `language variant`, looked up in the first
/// entry of the language.
pub open spec fn premium_gender(data: VoiceData, language: Seq<char>, variant: Seq<char>) -> Option<Seq<char>> {
    match language_index(data, language) {
        Some(i) => match variant_index(data.premium_voices@[i].variants@, variant) {
            Some(j) => Some(data.premium_voices@[i].variants@[j].gender@),
            None => None,
        },
        None => None,
    }
}

/// Whether `voice` is a voice of the engine `mode`.
pub open spec fn valid_voice(data: VoiceData, voice: Seq<char>, mode: TTSMode) -> bool {
    match mode {
        TTSMode::gTTS => exists|i: int| 0 <= i < data.gtts_voices@.len() && #[trigger] data.gtts_voices@[i].code@ == voice,
        TTSMode::eSpeak => exists|i: int| 0 <= i < data.espeak_voices@.len() && #[trigger] data.espeak_voices@[i]@ == voice,
        TTSMode::Polly => polly_index(data, voice) is Some,
        TTSMode::gCloud => match split_at_space(voice) {
            Some((language, variant)) => premium_gender(data, language, variant) is Some,
            None => false,
        },
    }
}

fn find_language(data: &VoiceData, language: &String) -> (r: Option<usize>)
    ensures
        match r {
            Some(i) => language_index(*data, language@) == Some(i as int) && i < data.premium_voices@.len(),
            None => language_index(*data, language@) is None,
        },
{
    let mut i: usize = 0;
    while i < data.premium_voices.len()
        invariant
            i <= data.premium_voices@.len(),
            forall|k: int| 0 <= k < i ==> data.premium_voices@[k].language@ != language@,
        decreases data.premium_voices@.len() - i,
    {
        if data.premium_voices[i].language == *language {
            proof {
                let j = choose|j: int|
                    0 <= j < data.premium_voices@.len() && data.premium_voices@[j].language@ == language@ && forall|k: int|
                        0 <= k < j ==> #[trigger] data.premium_voices@[k].language@ != language@;
                if j < i {
                } else if j > i {
                    assert(data.premium_voices@[i as int].language@ == language@);
                }
            }
            return Some(i);
        }
        i = i + 1;
    }
    None
}

fn find_variant(variants: &Vec<VoiceVariant>, variant: &String) -> (r: Option<usize>)
    ensures
        match r {
            Some(j) => variant_index(variants@, variant@) == Some(j as int) && j < variants@.len(),
            None => variant_index(variants@, variant@) is None,
        },
{
    let mut j: usize = 0;
    while j < variants.len()
        invariant
            j <= variants@.len(),
            forall|k: int| 0 <= k < j ==> variants@[k].variant@ != variant@,
        decreases variants@.len() - j,
    {
        if variants[j].variant == *variant {
            proof {
                let t = choose|t: int|
                    0 <= t < variants@.len() && variants@[t].variant@ == variant@ && forall|k: int|
                        0 <= k < t ==> #[trigger] variants@[k].variant@ != variant@;
                if t < j {
                } else if t > j {
                    assert(variants@[j as int].variant@ == variant@);
                }
            }
            return Some(j);
        }
        j = j + 1;
    }
    None
}

pub(crate) fn find_polly(data: &VoiceData, id: &String) -> (r: Option<usize>)
    ensures
        match r {
            Some(i) => polly_index(*data, id@) == Some(i as int) && i < data.polly_voices@.len(),
            None => polly_index(*data, id@) is None,
        },
{
    let mut i: usize = 0;
    while i < data.polly_voices.len()
        invariant
            i <= data.polly_voices@.len(),
            forall|k: int| 0 <= k < i ==> data.polly_voices@[k].id@ != id@,
        decreases data.polly_voices@.len() - i,
    {
        if data.polly_voices[i].id == *id {
            proof {
                let t = choose|t: int|
                    0 <= t < data.polly_voices@.len() && data.polly_voices@[t].id@ == id@ && forall|k: int|
                        0 <= k < t ==> #[trigger] data.polly_voices@[k].id@ != id@;
                if t < i {
                } else if t > i {
                    assert(data.polly_voices@[i as int].id@ == id@);
                }
            }
            return Some(i);
        }
        i = i + 1;
    }
    None
}

pub(crate) fn premium_lookup(data: &VoiceData, voice: &String) -> (r: Option<(String, String, String)>)
    ensures
        match r {
            Some((language, variant, gender)) => split_at_space(voice@) == Some((language@, variant@))
                && premium_gender(*data, language@, variant@) == Some(gender@),
            None => match split_at_space(voice@) {
                Some((language, variant)) => premium_gender(*data, language, variant) is None,
                None => true,
            },
        },
{
    match split_once_space(voice.as_str()) {
        Some((language, variant)) => match find_language(data, &language) {
            Some(i) => match find_variant(&data.premium_voices[i].variants, &variant) {
                Some(j) => {
                    let gender = data.premium_voices[i].variants[j].gender.clone();
                    Some((language, variant, gender))
                },
                None => None,
            },
            None => None,
        },
        None => None,
    }
}

/// Whether `voice` is a voice of the engine `mode`.
pub fn check_valid_voice(data: &VoiceData, voice: &String, mode: TTSMode) -> (r: bool)
    ensures
        r == valid_voice(*data, voice@, mode),
{
    match mode {
        TTSMode::gTTS => {
            let mut i: usize = 0;
            while i < data.gtts_voices.len()
                invariant
                    mode is gTTS,
                    i <= data.gtts_voices@.len(),
                    forall|k: int| 0 <= k < i ==> data.gtts_voices@[k].code@ != voice@,
                decreases data.gtts_voices@.len() - i,
            {
                if data.gtts_voices[i].code == *voice {
                    assert(data.gtts_voices@[i as int].code@ == voice@);
                    return true;
                }
                i = i + 1;
            }
            false
        },
        TTSMode::eSpeak => {
            let mut i: usize = 0;
            while i < data.espeak_voices.len()
                invariant
                    mode is eSpeak,
                    i <= data.espeak_voices@.len(),
                    forall|k: int| 0 <= k < i ==> data.espeak_voices@[k]@ != voice@,
                decreases data.espeak_voices@.len() - i,
            {
                if data.espeak_voices[i] == *voice {
                    assert(data.espeak_voices@[i as int]@ == voice@);
                    return true;
                }
                i = i + 1;
            }
            false
        },
        TTSMode::Polly => find_polly(data, voice).is_some(),
        TTSMode::gCloud => premium_lookup(data, voice).is_some(),
    }
}

/// How a voice is shown to users: gCloud voices as "language - variant
/// (gender)", Polly voices as "name - language (gender)", others as stored.
pub open spec fn voice_display(data: VoiceData, voice: Seq<char>, mode: TTSMode) -> Seq<char> {
    match mode {
        TTSMode::gCloud => match split_at_space(voice) {
            Some((language, variant)) => match premium_gender(data, language, variant) {
                Some(gender) => language + " - "@ + variant + " ("@ + gender + ")"@,
                None => voice,
            },
            None => voice,
        },
        TTSMode::Polly => match polly_index(data, voice) {
            Some(i) => {
                let v = data.polly_voices@[i];
                v.name@ + " - "@ + v.language_name@ + " ("@ + v.gender@ + ")"@
            },
            None => voice,
        },
        _ => voice,
    }
}

/// Shows a voice of the engine `mode` to users; a Polly or gCloud voice must
/// be one the engine offers.
pub fn format_voice(data: &VoiceData, voice: &str, mode: TTSMode) -> (r: String)
    requires
        mode is gCloud || mode is Polly ==> valid_voice(*data, voice@, mode),
    ensures
        r@ == voice_display(*data, voice@, mode),
{
    proof {
        reveal_strlit(" - ");
        reveal_strlit(" (");
        reveal_strlit(")");
    }
    let owned = String::from_str(voice);
    match mode {
        TTSMode::gCloud => match premium_lookup(data, &owned) {
            Some((language, variant, gender)) => {
                join2(language.as_str(), " - ").concat(variant.as_str()).concat(" (").concat(gender.as_str()).concat(
                    ")",
                )
            },
            None => owned,
        },
        TTSMode::Polly => match find_polly(data, &owned) {
            Some(i) => {
                let v = &data.polly_voices[i];
                join2(v.name.as_str(), " - ").concat(v.language_name.as_str()).concat(" (").concat(
                    v.gender.as_str(),
                ).concat(")")
            },
            None => owned,
        },
        _ => owned,
    }
}

/// A navigation button of the voice list.
#[derive(Clone, Copy, Debug, PartialEq, Eq, Structural)]
pub enum PageButton {
    First,
    Previous,
    Stop,
    Next,
    Last,
}

pub open spec fn button_id(b: PageButton) -> Seq<char> {
    match b {
        PageButton::First => "\u{23ee}\u{fe0f}"@,
        PageButton::Previous => "\u{25c0}"@,
        PageButton::Stop => "\u{23f9}\u{fe0f}"@,
        PageButton::Next => "\u{25b6}\u{fe0f}"@,
        PageButton::Last => "\u{23ed}\u{fe0f}"@,
    }
}

impl PageButton {
    /// The buttons in the order they are shown.
    pub fn all() -> (r: Vec<PageButton>)
        ensures
            r@ == seq![PageButton::First, PageButton::Previous, PageButton::Stop, PageButton::Next, PageButton::Last],
    {
        let r = vec![PageButton::First, PageButton::Previous, PageButton::Stop, PageButton::Next, PageButton::Last];
        assert(r@ =~= seq![PageButton::First, PageButton::Previous, PageButton::Stop, PageButton::Next, PageButton::Last]);
        r
    }

    /// The button's custom identifier, which is also its emoji.
    pub fn custom_id(self) -> (r: &'static str)
        ensures
            r@ == button_id(self),
    {
        proof {
            reveal_strlit("\u{23ee}\u{fe0f}");
            reveal_strlit("\u{25c0}");
            reveal_strlit("\u{23f9}\u{fe0f}");
            reveal_strlit("\u{25b6}\u{fe0f}");
            reveal_strlit("\u{23ed}\u{fe0f}");
        }
        match self {
            PageButton::First => "\u{23ee}\u{fe0f}",
            PageButton::Previous => "\u{25c0}",
            PageButton::Stop => "\u{23f9}\u{fe0f}",
            PageButton::Next => "\u{25b6}\u{fe0f}",
            PageButton::Last => "\u{23ed}\u{fe0f}",
        }
    }

    /// The button with the custom identifier `id`, if any.
    pub fn from_custom_id(id: &str) -> (r: Option<PageButton>)
        ensures
            match r {
                Some(b) => button_id(b) == id@,
                None => forall|b: PageButton| button_id(b) != id@,
            },
    {
        let buttons = PageButton::all();
        let mut i: usize = 0;
        while i < buttons.len()
            invariant
                buttons@ == seq![PageButton::First, PageButton::Previous, PageButton::Stop, PageButton::Next, PageButton::Last],
                i <= buttons@.len(),
                forall|k: int| 0 <= k < i ==> button_id(buttons@[k]) != id@,
            decreases buttons@.len() - i,
        {
            let b = buttons[i];
            if crate::text::same_str(b.custom_id(), id) {
                return Some(b);
            }
            i = i + 1;
        }
        proof {
            assert forall|b: PageButton| button_id(b) != id@ by {
                match b {
                    PageButton::First => assert(buttons@[0] == b),
                    PageButton::Previous => assert(buttons@[1] == b),
                    PageButton::Stop => assert(buttons@[2] == b),
                    PageButton::Next => assert(buttons@[3] == b),
                    PageButton::Last => assert(buttons@[4] == b),
                }
            }
        }
        None
    }
}

/// What the voice list does after a button press.
#[derive(Clone, Copy, Debug, PartialEq, Eq, Structural)]
pub enum PageAction {
    /// Show the current page.
    Show,
    /// Show the current page with every button disabled, and stop listening.
    Close,
}

/// The page shown after pressing `button` on page `index` of `count` pages.
pub open spec fn pressed_index(index: nat, count: nat, button: PageButton) -> nat {
    match button {
        PageButton::First => 0,
        PageButton::Previous => if index > 0 {
            (index - 1) as nat
        } else {
            index
        },
        PageButton::Stop => index,
        PageButton::Next => if index + 1 < count {
            index + 1
        } else {
            index
        },
        PageButton::Last => if count > 0 {
            (count - 1) as nat
        } else {
            index
        },
    }
}

/// A list of voices shown one page at a time.
pub struct MenuPaginator {
    index: usize,
    mode: TTSMode,
    pages: Vec<String>,
    footer: String,
    current_voice: String,
}

impl MenuPaginator {
    /// The shown page is one of the pages, or the first if there are none.
    pub closed spec fn wf(&self) -> bool {
        if self.pages@.len() == 0 {
            self.index == 0
        } else {
            self.index < self.pages@.len()
        }
    }

    pub closed spec fn spec_index(&self) -> nat {
        self.index as nat
    }

    pub closed spec fn spec_pages(&self) -> Seq<String> {
        self.pages@
    }

    pub closed spec fn spec_mode(&self) -> TTSMode {
        self.mode
    }

    pub closed spec fn spec_footer(&self) -> Seq<char> {
        self.footer@
    }

    pub closed spec fn spec_current_voice(&self) -> Seq<char> {
        self.current_voice@
    }

    /// A list showing its first page.
    pub fn new(pages: Vec<String>, current_voice: String, mode: TTSMode, footer: String) -> (r: MenuPaginator)
        ensures
            r.wf(),
            r.spec_index() == 0,
            r.spec_pages() == pages@,
            r.spec_mode() == mode,
            r.spec_footer() == footer@,
            r.spec_current_voice() == current_voice@,
    {
        MenuPaginator { pages, current_voice, mode, footer, index: 0 }
    }

    /// The number of the shown page, from zero.
    pub fn index(&self) -> (r: usize)
        ensures
            r == self.spec_index(),
    {
        self.index
    }

    /// The shown page, if there are pages.
    pub fn page(&self) -> (r: Option<&String>)
        requires
            self.wf(),
        ensures
            match r {
                Some(p) => self.spec_pages().len() > 0 && *p == self.spec_pages()[self.spec_index() as int],
                None => self.spec_pages().len() == 0,
            },
    {
        if self.pages.len() == 0 {
            None
        } else {
            Some(&self.pages[self.index])
        }
    }

    pub fn mode(&self) -> (r: TTSMode)
        ensures
            r == self.spec_mode(),
    {
        self.mode
    }

    pub fn footer(&self) -> (r: &String)
        ensures
            r@ == self.spec_footer(),
    {
        &self.footer
    }

    pub fn current_voice(&self) -> (r: &String)
        ensures
            r@ == self.spec_current_voice(),
    {
        &self.current_voice
    }

    /// The title of a page: the bot's name and the engine.
    pub fn page_title(&self, catalog: Option<&gettext::Catalog>, bot_user: &str) -> (r: String)
        ensures
            catalog is None ==> r@ == replaced(
                replaced("{bot_user} Voices | Mode: `{mode}`"@, "{mode}"@, crate::settings::mode_name(self.spec_mode())),
                "{bot_user}"@,
                bot_user@,
            ),
    {
        proof {
            reveal_strlit("{bot_user} Voices | Mode: `{mode}`");
            reveal_strlit("{mode}");
            reveal_strlit("{bot_user}");
        }
        let t = localize(catalog, "{bot_user} Voices | Mode: `{mode}`");
        let moded = replace_all(t.as_str(), "{mode}", crate::settings::mode_str(self.mode));
        replace_all(moded.as_str(), "{bot_user}", bot_user)
    }

    /// The description of the shown page, if there are pages.
    pub fn page_description(&self, catalog: Option<&gettext::Catalog>) -> (r: Option<String>)
        requires
            self.wf(),
        ensures
            (r is Some) == (self.spec_pages().len() > 0),
            catalog is None ==> (r matches Some(d) ==> d@ == replaced(
                "**Currently Supported Voice**\n{page}"@,
                "{page}"@,
                self.spec_pages()[self.spec_index() as int]@,
            )),
    {
        proof {
            reveal_strlit("**Currently Supported Voice**\n{page}");
            reveal_strlit("{page}");
        }
        match self.page() {
            Some(page) => {
                let t = localize(catalog, "**Currently Supported Voice**\n{page}");
                Some(replace_all(t.as_str(), "{page}", page.as_str()))
            },
            None => None,
        }
    }

    /// Whether `button` is disabled: all are once the list is closed; the
    /// backward buttons are on the first page and the forward ones on the last.
    pub fn button_disabled(&self, button: PageButton, closed: bool) -> (r: bool)
        ensures
            r == (closed || ((button is First || button is Previous) && self.spec_index() == 0) || ((button
                is Next || button is Last) && self.spec_index() + 1 >= self.spec_pages().len())),
    {
        let at_start = self.index == 0;
        let at_end = self.index >= self.pages.len() || self.pages.len() - self.index <= 1;
        match button {
            PageButton::First | PageButton::Previous => closed || at_start,
            PageButton::Stop => closed,
            PageButton::Next | PageButton::Last => closed || at_end,
        }
    }

    /// Moves to the page that `button` selects.
    pub fn press(&mut self, button: PageButton) -> (r: PageAction)
        requires
            old(self).wf(),
        ensures
            final(self).wf(),
            final(self).spec_index() == pressed_index(old(self).spec_index(), old(self).spec_pages().len(), button),
            final(self).spec_pages() == old(self).spec_pages(),
            final(self).spec_mode() == old(self).spec_mode(),
            final(self).spec_footer() == old(self).spec_footer(),
            final(self).spec_current_voice() == old(self).spec_current_voice(),
            (r == PageAction::Close) == (button is Stop),
    {
        match button {
            PageButton::First => {
                self.index = 0;
                PageAction::Show
            },
            PageButton::Previous => {
                if self.index > 0 {
                    self.index = self.index - 1;
                }
                PageAction::Show
            },
            PageButton::Stop => PageAction::Close,
            PageButton::Next => {
                if self.index < self.pages.len() && self.pages.len() - self.index > 1 {
                    self.index = self.index + 1;
                }
                PageAction::Show
            },
            PageButton::Last => {
                if self.pages.len() > 0 {
                    self.index = self.pages.len() - 1;
                }
                PageAction::Show
            },
        }
    }
}

} // verus!
