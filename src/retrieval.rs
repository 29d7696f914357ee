//! The private answer to a request for the full diagnostic text behind a
//! notification.

use vstd::prelude::*;
use vstd::string::{StrSliceExecFns, StringExecFns};
use crate::envelope::VIEW_TRACEBACK_CUSTOM_ID;
use crate::store::DedupStore;
use crate::text::same_str;

verus! {

/// A file attached to a reply.
#[derive(Clone, Debug)]
pub struct Attachment {
    pub filename: String,
    pub data: Vec<u8>,
}

/// The reply to a traceback request.
#[derive(Clone, Debug)]
pub struct TracebackReply {
    /// Only the requester sees the reply.
    pub ephemeral: bool,
    pub content: Option<String>,
    pub attachment: Option<Attachment>,
}

pub open spec fn not_found_notice() -> Seq<char> {
    "No traceback found."@
}

pub open spec fn traceback_filename() -> Seq<char> {
    "traceback.txt"@
}

/// Whether an activated control is the traceback control.
pub fn is_traceback_control(custom_id: &str) -> (r: bool)
    ensures
        r == (custom_id@ == VIEW_TRACEBACK_CUSTOM_ID@),
{
    same_str(custom_id, VIEW_TRACEBACK_CUSTOM_ID)
}

/// The private reply for what the store found: the text as a file, or a
/// notice that there is none.
pub fn traceback_reply(found: Option<String>) -> (r: TracebackReply)
    ensures
        r.ephemeral,
        match found {
            Some(text) => r.content is None && (r.attachment matches Some(a) && a.filename@
                == traceback_filename() && a.data@ == vstd::utf8::encode_utf8(text@)),
            None => r.attachment is None && (r.content matches Some(c) && c@ == not_found_notice()),
        },
{
    proof {
        reveal_strlit("No traceback found.");
        reveal_strlit("traceback.txt");
    }
    match found {
        Some(text) => {
            let data = text.as_str().as_bytes_vec();
            TracebackReply {
                ephemeral: true,
                content: None,
                attachment: Some(Attachment { filename: String::from_str("traceback.txt"), data }),
            }
        },
        None => TracebackReply {
            ephemeral: true,
            content: Some(String::from_str("No traceback found.")),
            attachment: None,
        },
    }
}

/// Answers a traceback request for the notification `nref` from `store`:
/// privately, with the stored text as `traceback.txt` if the reference is
/// known and with the not-found notice otherwise.
pub fn retrieve(store: &DedupStore, nref: u64) -> (r: TracebackReply)
    requires
        store.wf(),
    ensures
        r.ephemeral,
        (forall|fp: Seq<u8>| #[trigger] store@.contains_key(fp) ==> store@[fp].0 != nref) ==> (
        r.attachment is None && (r.content matches Some(c) && c@ == not_found_notice())),
        (exists|fp: Seq<u8>| #[trigger] store@.contains_key(fp) && store@[fp].0 == nref) ==> (r.content is None
            && (r.attachment matches Some(a) && a.filename@ == traceback_filename() && exists|fp: Seq<u8>|
            #[trigger] store@.contains_key(fp) && store@[fp].0 == nref && a.data@ == vstd::utf8::encode_utf8(
                store@[fp].2,
            ))),
        r.attachment matches Some(a) ==> exists|fp: Seq<u8>|
            #[trigger] store@.contains_key(fp) && store@[fp].0 == nref && a.data@ == vstd::utf8::encode_utf8(
                store@[fp].2,
            ),
{
    traceback_reply(store.lookup_by_notification_ref(nref))
}

} // verus!
