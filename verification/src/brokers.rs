//! Message brokers which allow for communication between Spectacles services.
use vstd::prelude::*;
use vstd::string::*;

verus! {

/// Event handler for receiving messages from a message broker.
pub trait MessageHandler {
    fn on_message(&self, payload: String);
}

/// The queue that a consumer of `evt` reads, for a broker group and optional subgroup:
/// `group:subgroup:evt`, or `group:evt` without a subgroup.
pub open spec fn spec_queue_name(group: Seq<char>, subgroup: Option<Seq<char>>, evt: Seq<char>) -> Seq<char> {
    match subgroup {
        Some(g) => group + ":"@ + g + ":"@ + evt,
        None => group + ":"@ + evt,
    }
}

/// The queue that a consumer of `evt` reads.
pub fn queue_name(group: &str, subgroup: Option<&str>, evt: &str) -> (q: String)
    ensures
        q@ == spec_queue_name(group@, match subgroup {
            Some(g) => Some(g@),
            None => None,
        }, evt@),
{
    let mut q = group.to_owned();
    q.append(":");
    match subgroup {
        Some(g) => {
            q.append(g);
            q.append(":");
        },
        None => {},
    }
    q.append(evt);
    q
}

/// The queue that a subscription to `evt` declares in the older broker: the group, the
/// subgroup and the event written one after another.
pub fn subscription_queue_name(group: &str, subgroup: &str, evt: &str) -> (q: String)
    ensures
        q@ == group@ + subgroup@ + evt@,
{
    let mut q = group.to_owned();
    q.append(subgroup);
    q.append(evt);
    q
}

} // verus!
