//! Chat forwarding: fragment collection and group suppression.
//!
//! A server chat message carries a primary text and formatted sub-fragments.
//! Empty fragments are dropped; if the surviving list is empty, or any
//! surviving fragment contains the agent's own username or the reserved
//! echo-loop marker, the whole group is suppressed.  Otherwise one outbound
//! chat event is emitted per surviving fragment, in original order.

use vstd::prelude::*;
use crate::events::OutboundEvent;
use crate::text::{contains_sub, occurs_in};

verus! {

/// The reserved echo-loop marker: a fragment containing it is an echo of
/// the agent's own forwarding and suppresses its group.
pub open spec fn echo_marker_spec() -> Seq<char> {
    "unhandled: "@
}

/// The reserved echo-loop marker.
pub fn echo_marker() -> (r: &'static str)
    ensures
        r@ == echo_marker_spec(),
{
    "unhandled: "
}

/// The sub-fragments that survive: the empty ones dropped, order kept.
pub open spec fn kept_extras(extras: Seq<Seq<char>>) -> Seq<Seq<char>>
    decreases extras.len(),
{
    if extras.len() == 0 {
        Seq::empty()
    } else {
        kept_extras(extras.drop_last()) + (if extras.last().len() == 0 {
            Seq::empty()
        } else {
            seq![extras.last()]
        })
    }
}

/// The surviving fragment group: the primary text when non-empty, then the
/// surviving sub-fragments.
pub open spec fn fragment_group(primary: Seq<char>, extras: Seq<Seq<char>>) -> Seq<Seq<char>> {
    (if primary.len() == 0 {
        Seq::<Seq<char>>::empty()
    } else {
        seq![primary]
    }) + kept_extras(extras)
}

/// Whether one fragment forces suppression: it contains the agent's own
/// username or the reserved echo-loop marker.
pub open spec fn fragment_flagged(frag: Seq<char>, username: Seq<char>) -> bool {
    occurs_in(frag, username) || occurs_in(frag, echo_marker_spec())
}

/// Whether the whole group is suppressed: nothing survived, or some
/// surviving fragment is flagged.
pub open spec fn group_suppressed(frags: Seq<Seq<char>>, username: Seq<char>) -> bool {
    frags.len() == 0 || exists|k: int|
        0 <= k < frags.len() && fragment_flagged(#[trigger] frags[k], username)
}

/// The outbound chat events for one inbound server message: one chat event
/// per surviving fragment, in order, or none at all when the group is
/// suppressed.
pub fn chat_replies(username: &str, primary: &String, extras: &Vec<String>) -> (r: Vec<
    OutboundEvent,
>)
    ensures
        group_suppressed(fragment_group(primary@, extras.deep_view()), username@) ==> r@.len()
            == 0,
        !group_suppressed(fragment_group(primary@, extras.deep_view()), username@) ==> {
            let frags = fragment_group(primary@, extras.deep_view());
            r@.len() == frags.len() && (forall|k: int|
                0 <= k < frags.len() ==> ((#[trigger] r@[k]) matches OutboundEvent::ChatMessage {
                    message,
                } && message@ == frags[k]))
        },
{
    let ghost gx = extras.deep_view();
    let mut frags: Vec<String> = Vec::new();
    if !primary.as_str().is_empty() {
        frags.push(primary.clone());
    }
    proof {
        assert(kept_extras(gx.take(0)) =~= Seq::empty());
        assert(frags.deep_view() =~= fragment_group(primary@, gx.take(0)));
    }
    let mut i: usize = 0;
    while i < extras.len()
        invariant
            i <= extras@.len(),
            gx == extras.deep_view(),
            gx.len() == extras@.len(),
            frags.deep_view() == fragment_group(primary@, gx.take(i as int)),
        decreases extras@.len() - i,
    {
        proof {
            assert(gx.take(i + 1).drop_last() =~= gx.take(i as int));
            assert(gx.take(i + 1).last() == gx[i as int]);
            assert(gx[i as int] == extras@[i as int]@);
        }
        let ghost pre = frags.deep_view();
        let e = &extras[i];
        if !e.as_str().is_empty() {
            frags.push(e.clone());
            proof {
                assert(frags.deep_view() =~= pre.push(gx[i as int]));
            }
        }
        proof {
            assert(kept_extras(gx.take(i + 1)) == kept_extras(gx.take(i as int)) + (
            if gx[i as int].len() == 0 {
                Seq::<Seq<char>>::empty()
            } else {
                seq![gx[i as int]]
            }));
            assert(frags.deep_view() =~= fragment_group(primary@, gx.take(i + 1)));
        }
        i += 1;
    }
    proof {
        assert(gx.take(gx.len() as int) =~= gx);
    }
    let ghost gf = fragment_group(primary@, gx);
    let mut flagged = false;
    let mut j: usize = 0;
    while j < frags.len()
        invariant
            j <= frags@.len(),
            frags.deep_view() == gf,
            gf.len() == frags@.len(),
            flagged <==> exists|t: int|
                0 <= t < j && fragment_flagged(#[trigger] gf[t], username@),
        decreases frags@.len() - j,
    {
        let f = &frags[j];
        proof {
            assert(gf[j as int] == frags@[j as int]@);
        }
        if contains_sub(f.as_str(), username) || contains_sub(f.as_str(), echo_marker()) {
            flagged = true;
        }
        j += 1;
    }
    if frags.len() == 0 || flagged {
        return Vec::new();
    }
    let mut r: Vec<OutboundEvent> = Vec::new();
    let mut k: usize = 0;
    while k < frags.len()
        invariant
            k <= frags@.len(),
            frags.deep_view() == gf,
            gf.len() == frags@.len(),
            r@.len() == k,
            forall|t: int|
                0 <= t < k ==> ((#[trigger] r@[t]) matches OutboundEvent::ChatMessage {
                    message,
                } && message@ == gf[t]),
        decreases frags@.len() - k,
    {
        proof {
            assert(gf[k as int] == frags@[k as int]@);
        }
        let m = frags[k].clone();
        r.push(OutboundEvent::ChatMessage { message: m });
        k += 1;
    }
    r
}

} // verus!
