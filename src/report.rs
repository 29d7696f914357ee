//! The reporting protocol for one escalated failure, as a state machine: the
//! caller performs each returned action against the store and the
//! notification channel, and hands back what came of it.
//!
//! A failure whose fingerprint is already stored only has its notification's
//! footer edited. Otherwise a notification is sent first and then offered to
//! the store's atomic upsert; a reporter that finds another notification
//! already owning the fingerprint deletes its own, so that one notification
//! per failure stays visible. Two first occurrences reported at the same time
//! may thus both show a notification for the short while between sending and
//! recording; the store's upsert then decides which one stays.

use vstd::prelude::*;
use crate::envelope::{
    build_notification, footer_prefix, footer_text, fields_view, notification_fields, occurrence_footer,
    opt_view, FailureEnvelope, Notification, Telemetry, VIEW_TRACEBACK_CUSTOM_ID,
};
use crate::fingerprint::{fingerprint, fingerprint_of};
use crate::store::{increment_spec, upsert_owner, upsert_spec, StoreView};
use crate::text::decimal;

verus! {

/// Where a report stands.
#[derive(Clone, Copy, Debug, PartialEq, Eq, Structural)]
pub enum Phase {
    /// Waiting to learn whether the fingerprint is already stored.
    Lookup,
    /// Waiting for the host readings for a new notification.
    Measuring,
    /// Waiting for the new notification's reference.
    Sending,
    /// Waiting for the store to name the owner of the fingerprint.
    Recording { sent: u64 },
    /// Waiting for the footer edit of the existing notification.
    Editing,
    /// Waiting for the deletion of a notification that lost the race.
    Retracting { sent: u64 },
    Finished,
}

/// What came of the last action.
#[derive(Debug)]
pub enum ReportEvent {
    /// The store counted one more occurrence of a known fingerprint and gave
    /// its notification reference and new count, or did not know it.
    Counted(Option<(u64, u64)>),
    /// Host readings and the number of running shards.
    Measured(Telemetry, u64),
    /// The new notification was sent and got this reference.
    Sent(u64),
    /// The store's upsert names the notification that owns the fingerprint.
    Recorded(u64),
    /// An edit or a deletion went through.
    Completed,
    /// The store or the notification channel failed.
    Failed,
}

/// What the caller does next.
#[derive(Debug)]
pub enum ReportAction {
    /// Count one more occurrence of the fingerprint if it is stored.
    CountExisting,
    /// Read the host telemetry.
    Measure,
    /// Send this notification.
    Send(Notification),
    /// Upsert the fingerprint and diagnostic, offering the sent reference.
    Record { sent: u64 },
    /// Replace the footer of the notification `target`, and nothing else.
    EditFooter { target: u64, footer: String },
    /// Delete the notification `target`.
    Delete { target: u64 },
    /// The report is over.
    Finish,
}

/// The notification that a reporter deletes once the store names `owner` as
/// the owner of the fingerprint, after it sent `sent`.
pub open spec fn retracted(sent: u64, owner: u64) -> Option<u64> {
    if owner == sent {
        None
    } else {
        Some(sent)
    }
}

/// Two reporters that both found the fingerprint unknown and both sent a
/// notification (`first` and `second`, distinct) record them in turn: the
/// store names the first as owner to both, the first keeps its notification
/// and the second deletes its own. One notification survives, and the record
/// counts both occurrences.
pub proof fn lemma_concurrent_first_occurrences(
    m: StoreView,
    fp: Seq<u8>,
    text: Seq<char>,
    first: u64,
    second: u64,
)
    requires
        !m.contains_key(fp),
        first != second,
    ensures
        ({
            let owner1 = upsert_owner(m, fp, first);
            let m1 = upsert_spec(m, fp, text, first);
            let owner2 = upsert_owner(m1, fp, second);
            let m2 = upsert_spec(m1, fp, text, second);
            &&& owner1 == first && owner2 == first
            &&& retracted(first, owner1) is None
            &&& retracted(second, owner2) == Some(second)
            &&& set![first, second].remove(second) == set![first]
            &&& m2[fp] == (first, 2u64, text)
            &&& m2.dom() == m.dom().insert(fp)
        }),
{
    let m1 = upsert_spec(m, fp, text, first);
    let m2 = upsert_spec(m1, fp, text, second);
    assert(m2.dom() =~= m.dom().insert(fp));
    assert(set![first, second].remove(second) =~= set![first]);
}

/// The first occurrence of a failure: the store does not know its
/// fingerprint, so counting changes nothing and a notification is sent with
/// the footer for one occurrence. Recording it creates exactly one record,
/// with one occurrence, owned by that notification, which therefore stays.
pub proof fn lemma_first_occurrence(m: StoreView, fp: Seq<u8>, text: Seq<char>, sent: u64)
    requires
        !m.contains_key(fp),
    ensures
        increment_spec(m, fp) == m,
        footer_text(1) == "This error has occurred 1 time!"@,
        upsert_spec(m, fp, text, sent).dom() == m.dom().insert(fp),
        upsert_spec(m, fp, text, sent)[fp] == (sent, 1u64, text),
        retracted(sent, upsert_owner(m, fp, sent)) is None,
{
    reveal_strlit("This error has occurred ");
    reveal_strlit("1 time!");
    reveal_strlit("This error has occurred 1 time!");
    assert(footer_prefix() + "1 time!"@ =~= "This error has occurred 1 time!"@);
    assert(upsert_spec(m, fp, text, sent).dom() =~= m.dom().insert(fp));
}

/// A later occurrence of a stored failure: counting finds the record, which
/// keeps its notification and text, and the footer is edited to the new
/// count; on the second occurrence it reads "occurred 2 times". No
/// notification is sent.
pub proof fn lemma_second_occurrence(m: StoreView, fp: Seq<u8>)
    requires
        m.contains_key(fp),
        m[fp].1 == 1,
    ensures
        increment_spec(m, fp).dom() == m.dom(),
        increment_spec(m, fp)[fp] == (m[fp].0, 2u64, m[fp].2),
        footer_text(2) == "This error has occurred 2 times!"@,
{
    reveal_strlit("This error has occurred ");
    reveal_strlit(" times!");
    reveal_strlit("This error has occurred 2 times!");
    assert(decimal(2) =~= seq!['2']);
    assert(footer_prefix() + decimal(2) + " times!"@ =~= "This error has occurred 2 times!"@);
    assert(increment_spec(m, fp).dom() =~= m.dom());
}

/// One report in progress.
pub struct Report {
    pub envelope: FailureEnvelope,
    /// The name of the bot user, shown in a new notification.
    pub bot_user: String,
    pub fingerprint: Vec<u8>,
    pub phase: Phase,
}

impl Report {
    /// Starts reporting `envelope`: the first step asks the store about its
    /// fingerprint.
    pub fn start(envelope: FailureEnvelope, bot_user: String) -> (r: (Report, ReportAction))
        ensures
            r.0.fingerprint@ == fingerprint_of(envelope.diagnostic@),
            r.0.envelope == envelope,
            r.0.bot_user == bot_user,
            r.0.phase == Phase::Lookup,
            r.1 is CountExisting,
    {
        let fp = fingerprint(envelope.diagnostic.as_str());
        (Report { envelope, bot_user, fingerprint: fp, phase: Phase::Lookup }, ReportAction::CountExisting)
    }

    /// Advances the report by what came of its last action.
    pub fn step(&mut self, event: ReportEvent) -> (a: ReportAction)
        ensures
            final(self).envelope == old(self).envelope,
            final(self).bot_user == old(self).bot_user,
            final(self).fingerprint == old(self).fingerprint,
            event is Failed ==> final(self).phase == Phase::Finished && a is Finish,
            match (old(self).phase, event) {
                (Phase::Lookup, ReportEvent::Counted(Some((target, count)))) => {
                    &&& final(self).phase == Phase::Editing
                    &&& a matches ReportAction::EditFooter { target: t, footer }
                    &&& t == target && footer@ == footer_text(count as nat)
                },
                (Phase::Lookup, ReportEvent::Counted(None)) => {
                    final(self).phase == Phase::Measuring && a is Measure
                },
                (Phase::Measuring, ReportEvent::Measured(telemetry, shards)) => {
                    &&& final(self).phase == Phase::Sending
                    &&& a matches ReportAction::Send(n)
                    &&& crate::text::is_title_of(n.title@, old(self).envelope.diagnostic@)
                    &&& fields_view(n.fields@) == notification_fields(
                        old(self).envelope,
                        old(self).bot_user@,
                        telemetry,
                        shards,
                    )
                    &&& n.footer@ == footer_text(1)
                    &&& opt_view(n.author_name) == opt_view(old(self).envelope.author_name)
                    &&& opt_view(n.icon_url) == (if old(self).envelope.author_name is Some {
                        opt_view(old(self).envelope.icon_url)
                    } else {
                        None
                    })
                    &&& n.control_id@ == VIEW_TRACEBACK_CUSTOM_ID@
                    &&& n.control_label@ == "View Traceback"@
                },
                (Phase::Sending, ReportEvent::Sent(sent)) => {
                    final(self).phase == (Phase::Recording { sent }) && a == (ReportAction::Record {
                        sent,
                    })
                },
                (Phase::Recording { sent }, ReportEvent::Recorded(owner)) => {
                    match retracted(sent, owner) {
                        Some(target) => final(self).phase == (Phase::Retracting { sent })
                            && a == (ReportAction::Delete { target }),
                        None => final(self).phase == Phase::Finished && a is Finish,
                    }
                },
                (Phase::Editing, ReportEvent::Completed) => {
                    final(self).phase == Phase::Finished && a is Finish
                },
                (Phase::Retracting { sent: _ }, ReportEvent::Completed) => {
                    final(self).phase == Phase::Finished && a is Finish
                },
                _ => final(self).phase == Phase::Finished && a is Finish,
            },
    {
        let phase = self.phase;
        let (next, action) = match (phase, event) {
            (Phase::Lookup, ReportEvent::Counted(Some((target, count)))) => {
                (Phase::Editing, ReportAction::EditFooter { target, footer: occurrence_footer(count) })
            },
            (Phase::Lookup, ReportEvent::Counted(None)) => (Phase::Measuring, ReportAction::Measure),
            (Phase::Measuring, ReportEvent::Measured(telemetry, shards)) => {
                let n = build_notification(&self.envelope, self.bot_user.as_str(), &telemetry, shards);
                (Phase::Sending, ReportAction::Send(n))
            },
            (Phase::Sending, ReportEvent::Sent(sent)) => (Phase::Recording { sent }, ReportAction::Record { sent }),
            (Phase::Recording { sent }, ReportEvent::Recorded(owner)) => {
                if owner == sent {
                    (Phase::Finished, ReportAction::Finish)
                } else {
                    (Phase::Retracting { sent }, ReportAction::Delete { target: sent })
                }
            },
            (Phase::Editing, ReportEvent::Completed) => (Phase::Finished, ReportAction::Finish),
            (Phase::Retracting { sent: _ }, ReportEvent::Completed) => (Phase::Finished, ReportAction::Finish),
            _ => (Phase::Finished, ReportAction::Finish),
        };
        self.phase = next;
        action
    }
}

} // verus!
