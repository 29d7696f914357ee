//! The start-up status line of the shards: which runs of shards are in which
//! connection stage.

use vstd::prelude::*;
use vstd::string::StringExecFns;
use crate::text::{decimal, decimal_string, join2};

verus! {

/// The connection stage of a shard.
#[derive(Clone, Copy, Debug, PartialEq, Eq, Structural)]
pub enum ShardStage {
    Connected,
    Connecting,
    Disconnected,
    Handshake,
    Identifying,
    Resuming,
}

pub open spec fn stage_name(s: ShardStage) -> Seq<char> {
    match s {
        ShardStage::Connected => "connected"@,
        ShardStage::Connecting => "connecting"@,
        ShardStage::Disconnected => "disconnected"@,
        ShardStage::Handshake => "handshaking"@,
        ShardStage::Identifying => "identifying"@,
        ShardStage::Resuming => "resuming"@,
    }
}

/// Names a connection stage.
pub fn stage_str(s: ShardStage) -> (r: &'static str)
    ensures
        r@ == stage_name(s),
{
    proof {
        reveal_strlit("connected");
        reveal_strlit("connecting");
        reveal_strlit("disconnected");
        reveal_strlit("handshaking");
        reveal_strlit("identifying");
        reveal_strlit("resuming");
    }
    match s {
        ShardStage::Connected => "connected",
        ShardStage::Connecting => "connecting",
        ShardStage::Disconnected => "disconnected",
        ShardStage::Handshake => "handshaking",
        ShardStage::Identifying => "identifying",
        ShardStage::Resuming => "resuming",
    }
}

/// A shard and its stage.
#[derive(Clone, Copy, Debug, PartialEq, Eq, Structural)]
pub struct ShardInfo {
    pub id: u32,
    pub stage: ShardStage,
}

/// `s`, sorted by id, with `x` put after the shards whose id is not larger.
pub open spec fn insert_by_id(s: Seq<ShardInfo>, x: ShardInfo) -> Seq<ShardInfo>
    decreases s.len(),
{
    if s.len() == 0 {
        seq![x]
    } else if x.id < s[0].id {
        seq![x] + s
    } else {
        seq![s[0]] + insert_by_id(s.drop_first(), x)
    }
}

/// The shards sorted by id; shards with equal ids keep their order.
pub open spec fn sorted_by_id(s: Seq<ShardInfo>) -> Seq<ShardInfo>
    decreases s.len(),
{
    if s.len() == 0 {
        s
    } else {
        insert_by_id(sorted_by_id(s.drop_last()), s.last())
    }
}

proof fn lemma_insert_at(s: Seq<ShardInfo>, x: ShardInfo, p: int)
    requires
        0 <= p <= s.len(),
        forall|k: int| 0 <= k < p ==> s[k].id <= x.id,
        p < s.len() ==> x.id < s[p].id,
    ensures
        insert_by_id(s, x) == s.insert(p, x),
    decreases s.len(),
{
    if s.len() == 0 {
        assert(s.insert(p, x) =~= seq![x]);
    } else if p == 0 {
        assert(s.insert(0, x) =~= seq![x] + s);
    } else {
        lemma_insert_at(s.drop_first(), x, p - 1);
        assert(s.insert(p, x) =~= seq![s[0]] + s.drop_first().insert(p - 1, x));
    }
}

/// Sorts shards by id, keeping shards with equal ids in their order.
pub fn sort_shards(shards: &Vec<ShardInfo>) -> (r: Vec<ShardInfo>)
    ensures
        r@ == sorted_by_id(shards@),
{
    let mut out: Vec<ShardInfo> = Vec::new();
    let mut i: usize = 0;
    while i < shards.len()
        invariant
            i <= shards@.len(),
            out@ == sorted_by_id(shards@.subrange(0, i as int)),
        decreases shards@.len() - i,
    {
        let x = shards[i];
        let mut p: usize = 0;
        while p < out.len() && out[p].id <= x.id
            invariant
                p <= out@.len(),
                forall|k: int| 0 <= k < p ==> out@[k].id <= x.id,
            decreases out@.len() - p,
        {
            p = p + 1;
        }
        proof {
            lemma_insert_at(out@, x, p as int);
            assert(shards@.subrange(0, i + 1).drop_last() =~= shards@.subrange(0, i as int));
        }
        out.insert(p, x);
        i = i + 1;
    }
    assert(shards@.subrange(0, shards@.len() as int) =~= shards@);
    out
}

/// One line of the status: a run from `start` to `end` in `stage`.
pub open spec fn status_line(start: u32, end: u32, stage: ShardStage) -> Seq<char> {
    "Shards "@ + decimal(start as nat) + "-"@ + decimal(end as nat) + ": "@ + stage_name(stage) + "\n"@
}

/// The status text of the sorted shards from position `i` on, where the
/// current run began at `run_start` in the stage `last`. A run's line is
/// written when a shard in another stage, or the last shard, is reached, and
/// names that shard's id as the run's end.
pub open spec fn status_from(s: Seq<ShardInfo>, i: int, run_start: u32, last: Option<ShardStage>) -> Seq<char>
    decreases s.len() - i,
{
    if i < 0 || i >= s.len() {
        Seq::empty()
    } else if last == Some(s[i].stage) && i != s.len() - 1 {
        status_from(s, i + 1, run_start, last)
    } else {
        let line = match last {
            Some(stage) => status_line(run_start, s[i].id, stage),
            None => Seq::empty(),
        };
        line + status_from(s, i + 1, s[i].id, Some(s[i].stage))
    }
}

/// The status text of the shards.
pub open spec fn status_text(shards: Seq<ShardInfo>) -> Seq<char> {
    status_from(sorted_by_id(shards), 0, 0, None)
}

/// Writes the status of the shards, in the order of their ids.
pub fn generate_status(shards: &Vec<ShardInfo>) -> (r: String)
    ensures
        r@ == status_text(shards@),
{
    proof {
        reveal_strlit("Shards ");
        reveal_strlit("-");
        reveal_strlit(": ");
        reveal_strlit("\n");
    }
    let sorted = sort_shards(shards);
    let ghost s = sorted@;
    let mut out = String::new();
    let mut run_start: u32 = 0;
    let mut last: Option<ShardStage> = None;
    let mut i: usize = 0;
    assert(out@ + status_from(s, 0, 0, None) =~= status_from(s, 0, 0, None));
    while i < sorted.len()
        invariant
            s == sorted@,
            i <= s.len(),
            status_from(s, 0, 0, None) == out@ + status_from(s, i as int, run_start, last),
        decreases s.len() - i,
    {
        let info = sorted[i];
        if last == Some(info.stage) && i != sorted.len() - 1 {
        } else {
            let ghost before = out@;
            match last {
                Some(stage) => {
                    let a = decimal_string(run_start as u64);
                    let b = decimal_string(info.id as u64);
                    let line = join2("Shards ", a.as_str()).concat("-").concat(b.as_str()).concat(": ").concat(
                        stage_str(stage),
                    ).concat("\n");
                    out = out.concat(line.as_str());
                    assert(out@ =~= before + status_line(run_start, info.id, stage));
                },
                None => {
                    assert(out@ =~= before + Seq::<char>::empty());
                },
            }
            last = Some(info.stage);
            run_start = info.id;
        }
        i = i + 1;
    }
    out
}

/// Whether shard `shard_id` is the last of `shard_count` to start.
pub open spec fn is_last_shard(shard_id: u32, shard_count: u32) -> bool {
    shard_id + 1 == shard_count
}

/// The title of the start-up log message when shard `shard_id` is ready:
/// once the last shard is, how long start-up took; before, how many shards
/// are starting. Also says whether this was the last shard.
pub fn startup_title(user_name: &str, shard_id: u32, shard_count: u32, elapsed_secs: u64) -> (r: (String, bool))
    ensures
        r.1 == is_last_shard(shard_id, shard_count),
        r.0@ == if is_last_shard(shard_id, shard_count) {
            user_name@ + " started in "@ + decimal(elapsed_secs as nat) + " seconds"@
        } else {
            user_name@ + " is starting up "@ + decimal(shard_count as nat) + " shards!"@
        },
{
    proof {
        reveal_strlit(" started in ");
        reveal_strlit(" seconds");
        reveal_strlit(" is starting up ");
        reveal_strlit(" shards!");
    }
    let last = shard_id < shard_count && shard_count - shard_id == 1;
    if last {
        let secs = decimal_string(elapsed_secs);
        (join2(user_name, " started in ").concat(secs.as_str()).concat(" seconds"), true)
    } else {
        let n = decimal_string(shard_count as u64);
        (join2(user_name, " is starting up ").concat(n.as_str()).concat(" shards!"), false)
    }
}

/// Whether the background updaters start now: when the last shard is ready
/// and they have not been started.
pub fn start_updaters(last_shard: bool, fully_started: bool) -> (r: bool)
    ensures
        r == (last_shard && !fully_started),
{
    last_shard && !fully_started
}

} // verus!
