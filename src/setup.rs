//! The channel menu of the setup command: the text channels where both the
//! user and the bot can read and send, by position, in menus of 25.

use vstd::prelude::*;
use crate::locale::localize;
use crate::settings::{can_send, SEND_MESSAGES, VIEW_CHANNEL};
use crate::text::{decimal, decimal_string, replace_all, replaced};

verus! {

/// The most options a menu holds.
pub const MENU_SIZE: usize = 25;

/// The most channels offered; with more the user names the channel.
pub const MAX_CHANNELS: usize = 125;

/// A channel of the guild, with the permissions of the user and of the bot in
/// it (as bits; `None` where they could not be worked out).
#[derive(Clone, Debug)]
pub struct ChannelCandidate {
    pub id: u64,
    pub name: String,
    pub position: u16,
    pub is_text: bool,
    pub author_permissions: Option<u64>,
    pub bot_permissions: Option<u64>,
}

pub open spec fn allows_send(p: Option<u64>) -> bool {
    p matches Some(bits) && bits & (VIEW_CHANNEL | SEND_MESSAGES) == (VIEW_CHANNEL | SEND_MESSAGES)
}

pub open spec fn usable(c: ChannelCandidate) -> bool {
    c.is_text && allows_send(c.author_permissions) && allows_send(c.bot_permissions)
}

/// The usable channels, in order.
pub open spec fn usable_channels(s: Seq<ChannelCandidate>) -> Seq<ChannelCandidate>
    decreases s.len(),
{
    if s.len() == 0 {
        s
    } else {
        usable_channels(s.drop_last()) + if usable(s.last()) {
            seq![s.last()]
        } else {
            Seq::empty()
        }
    }
}

/// `s`, sorted by position, with `x` put after the channels whose position is
/// not larger.
pub open spec fn insert_by_position(s: Seq<ChannelCandidate>, x: ChannelCandidate) -> Seq<ChannelCandidate>
    decreases s.len(),
{
    if s.len() == 0 {
        seq![x]
    } else if x.position < s[0].position {
        seq![x] + s
    } else {
        seq![s[0]] + insert_by_position(s.drop_first(), x)
    }
}

/// The channels sorted by position; channels with equal positions keep their
/// order.
pub open spec fn sorted_by_position(s: Seq<ChannelCandidate>) -> Seq<ChannelCandidate>
    decreases s.len(),
{
    if s.len() == 0 {
        s
    } else {
        insert_by_position(sorted_by_position(s.drop_last()), s.last())
    }
}

/// `s` cut into consecutive menus of [`MENU_SIZE`]; the last may be shorter.
pub open spec fn menus_of(s: Seq<ChannelCandidate>) -> Seq<Seq<ChannelCandidate>>
    decreases s.len(),
{
    if s.len() == 0 {
        Seq::empty()
    } else if s.len() <= MENU_SIZE {
        seq![s]
    } else {
        seq![s.subrange(0, MENU_SIZE as int)] + menus_of(s.subrange(MENU_SIZE as int, s.len() as int))
    }
}

proof fn lemma_insert_at(s: Seq<ChannelCandidate>, x: ChannelCandidate, p: int)
    requires
        0 <= p <= s.len(),
        forall|k: int| 0 <= k < p ==> s[k].position <= x.position,
        p < s.len() ==> x.position < s[p].position,
    ensures
        insert_by_position(s, x) == s.insert(p, x),
    decreases s.len(),
{
    if s.len() == 0 {
        assert(s.insert(p, x) =~= seq![x]);
    } else if p == 0 {
        assert(s.insert(0, x) =~= seq![x] + s);
    } else {
        lemma_insert_at(s.drop_first(), x, p - 1);
        assert(s.insert(p, x) =~= seq![s[0]] + s.drop_first().insert(p - 1, x));
    }
}

fn copy_candidate(c: &ChannelCandidate) -> (r: ChannelCandidate)
    ensures
        r == *c,
{
    ChannelCandidate {
        id: c.id,
        name: c.name.clone(),
        position: c.position,
        is_text: c.is_text,
        author_permissions: c.author_permissions,
        bot_permissions: c.bot_permissions,
    }
}

/// The usable channels, sorted by position.
pub fn usable_sorted(channels: &Vec<ChannelCandidate>) -> (r: Vec<ChannelCandidate>)
    ensures
        r@ == sorted_by_position(usable_channels(channels@)),
{
    let mut kept: Vec<ChannelCandidate> = Vec::new();
    let mut i: usize = 0;
    while i < channels.len()
        invariant
            i <= channels@.len(),
            kept@ == usable_channels(channels@.subrange(0, i as int)),
        decreases channels@.len() - i,
    {
        assert(channels@.subrange(0, i + 1).drop_last() =~= channels@.subrange(0, i as int));
        let c = &channels[i];
        if c.is_text && can_send(c.author_permissions) && can_send(c.bot_permissions) {
            kept.push(copy_candidate(c));
        }
        assert(kept@ =~= usable_channels(channels@.subrange(0, i + 1)));
        i = i + 1;
    }
    assert(channels@.subrange(0, channels@.len() as int) =~= channels@);
    let ghost u = kept@;
    let mut out: Vec<ChannelCandidate> = Vec::new();
    let mut j: usize = 0;
    while j < kept.len()
        invariant
            u == kept@,
            j <= u.len(),
            out@ == sorted_by_position(u.subrange(0, j as int)),
        decreases u.len() - j,
    {
        let x = copy_candidate(&kept[j]);
        let mut p: usize = 0;
        while p < out.len() && out[p].position <= x.position
            invariant
                p <= out@.len(),
                forall|k: int| 0 <= k < p ==> out@[k].position <= x.position,
            decreases out@.len() - p,
        {
            p = p + 1;
        }
        proof {
            lemma_insert_at(out@, x, p as int);
            assert(u.subrange(0, j + 1).drop_last() =~= u.subrange(0, j as int));
        }
        out.insert(p, x);
        j = j + 1;
    }
    assert(u.subrange(0, u.len() as int) =~= u);
    out
}

/// Cuts channels into menus of [`MENU_SIZE`].
pub fn into_menus(channels: Vec<ChannelCandidate>) -> (r: Vec<Vec<ChannelCandidate>>)
    ensures
        r@.map_values(|m: Vec<ChannelCandidate>| m@) == menus_of(channels@),
{
    let ghost all = channels@;
    let mut menus: Vec<Vec<ChannelCandidate>> = Vec::new();
    let mut current: Vec<ChannelCandidate> = Vec::new();
    let mut i: usize = 0;
    assert(all.subrange(0, all.len() as int) =~= all);
    assert(menus@.map_values(|m: Vec<ChannelCandidate>| m@) =~= Seq::<Seq<ChannelCandidate>>::empty());
    assert(Seq::<Seq<ChannelCandidate>>::empty() + menus_of(all) =~= menus_of(all));
    while i < channels.len()
        invariant
            all == channels@,
            i <= all.len(),
            current@.len() < MENU_SIZE,
            current@ == all.subrange((i - current@.len()) as int, i as int),
            (i - current@.len()) % (MENU_SIZE as int) == 0,
            menus@.map_values(|m: Vec<ChannelCandidate>| m@) + menus_of(all.subrange((i - current@.len()) as int, all.len() as int))
                == menus_of(all),
        decreases all.len() - i,
    {
        current.push(copy_candidate(&channels[i]));
        assert(current@ =~= all.subrange((i + 1 - current@.len()) as int, i + 1));
        i = i + 1;
        if current.len() == MENU_SIZE {
            let start = i - MENU_SIZE;
            let ghost rest = all.subrange(start as int, all.len() as int);
            proof {
                assert(rest.len() > MENU_SIZE ==> menus_of(rest) == seq![rest.subrange(0, MENU_SIZE as int)]
                    + menus_of(rest.subrange(MENU_SIZE as int, rest.len() as int)));
                assert(rest.subrange(0, MENU_SIZE as int) =~= current@);
                assert(rest.subrange(MENU_SIZE as int, rest.len() as int) =~= all.subrange(i as int, all.len() as int));
                if rest.len() == MENU_SIZE as nat {
                    assert(menus_of(rest) == seq![rest]);
                    assert(all.subrange(i as int, all.len() as int) =~= Seq::<ChannelCandidate>::empty());
                    assert(menus_of(Seq::<ChannelCandidate>::empty()) =~= Seq::<Seq<ChannelCandidate>>::empty());
                    assert(rest =~= current@);
                }
            }
            let ghost before = menus@.map_values(|m: Vec<ChannelCandidate>| m@);
            let full = current;
            current = Vec::new();
            let ghost fv = full@;
            menus.push(full);
            assert(menus@.map_values(|m: Vec<ChannelCandidate>| m@) =~= before.push(fv));
            assert(before.push(fv) + menus_of(all.subrange(i as int, all.len() as int)) =~= before + (seq![fv]
                + menus_of(all.subrange(i as int, all.len() as int))));
        }
    }
    if current.len() > 0 {
        let ghost rest = all.subrange((i - current@.len()) as int, all.len() as int);
        assert(rest =~= current@);
        assert(menus_of(rest) == seq![rest]);
        let ghost before = menus@.map_values(|m: Vec<ChannelCandidate>| m@);
        let ghost cv = current@;
        menus.push(current);
        assert(menus@.map_values(|m: Vec<ChannelCandidate>| m@) =~= before.push(cv));
    } else {
        assert(all.subrange(i as int, all.len() as int) =~= Seq::<ChannelCandidate>::empty());
        assert(menus_of(Seq::<ChannelCandidate>::empty()) =~= Seq::<Seq<ChannelCandidate>>::empty());
    }
    menus
}

pub open spec fn no_channels_message() -> Seq<char> {
    "**Error**: This server doesn't have any text channels that we both have Read/Send Messages in!"@
}

pub open spec fn too_many_channels_message() -> Seq<char> {
    "**Error**: This server has too many text channels to show in a menu! Please run `/setup #channel`"@
}

/// The channel menus of the setup command, or the reply when no menu can be
/// shown: no usable channel, or [`MAX_CHANNELS`] or more of them.
pub fn setup(catalog: Option<&gettext::Catalog>, channels: &Vec<ChannelCandidate>) -> (r: Result<
    Vec<Vec<ChannelCandidate>>,
    String,
>)
    ensures
        ({
            let u = usable_channels(channels@);
            match r {
                Ok(menus) => 0 < u.len() < MAX_CHANNELS && menus@.map_values(|m: Vec<ChannelCandidate>| m@)
                    == menus_of(sorted_by_position(u)),
                Err(reply) => (u.len() == 0 || u.len() >= MAX_CHANNELS) && (catalog is None ==> reply@ == (if u.len()
                    == 0 {
                    no_channels_message()
                } else {
                    too_many_channels_message()
                })),
            }
        }),
{
    proof {
        reveal_strlit(
            "**Error**: This server doesn't have any text channels that we both have Read/Send Messages in!",
        );
        reveal_strlit(
            "**Error**: This server has too many text channels to show in a menu! Please run `/setup #channel`",
        );
    }
    let sorted = usable_sorted(channels);
    proof {
        lemma_sorted_len(usable_channels(channels@));
    }
    if sorted.len() == 0 {
        Err(
            localize(
                catalog,
                "**Error**: This server doesn't have any text channels that we both have Read/Send Messages in!",
            ),
        )
    } else if sorted.len() >= MAX_CHANNELS {
        Err(
            localize(
                catalog,
                "**Error**: This server has too many text channels to show in a menu! Please run `/setup #channel`",
            ),
        )
    } else {
        Ok(into_menus(sorted))
    }
}

proof fn lemma_insert_len(s: Seq<ChannelCandidate>, x: ChannelCandidate)
    ensures
        insert_by_position(s, x).len() == s.len() + 1,
    decreases s.len(),
{
    if s.len() > 0 && x.position >= s[0].position {
        lemma_insert_len(s.drop_first(), x);
    }
}

proof fn lemma_sorted_len(s: Seq<ChannelCandidate>)
    ensures
        sorted_by_position(s).len() == s.len(),
    decreases s.len(),
{
    if s.len() > 0 {
        lemma_sorted_len(s.drop_last());
        lemma_insert_len(sorted_by_position(s.drop_last()), s.last());
    }
}

/// The reply once a channel is set up: a title naming the bot and a
/// description naming the channel.
pub fn setup_done(catalog: Option<&gettext::Catalog>, bot_name: &str, channel: u64) -> (r: (String, String))
    ensures
        catalog is None ==> r.0@ == replaced("{bot_name} has been setup!"@, "{bot_name}"@, bot_name@),
        catalog is None ==> r.1@ == replaced(
            "\nTTS Bot will now accept commands and read from <#{channel}>.\nJust do `/join` and start talking!\n"@,
            "{channel}"@,
            decimal(channel as nat),
        ),
{
    proof {
        reveal_strlit("{bot_name} has been setup!");
        reveal_strlit("{bot_name}");
        reveal_strlit("\nTTS Bot will now accept commands and read from <#{channel}>.\nJust do `/join` and start talking!\n");
        reveal_strlit("{channel}");
    }
    let title = localize(catalog, "{bot_name} has been setup!");
    let body = localize(
        catalog,
        "\nTTS Bot will now accept commands and read from <#{channel}>.\nJust do `/join` and start talking!\n",
    );
    let id = decimal_string(channel);
    (replace_all(title.as_str(), "{bot_name}", bot_name), replace_all(body.as_str(), "{channel}", id.as_str()))
}

} // verus!
