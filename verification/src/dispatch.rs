//! The ordered dispatch pipeline for the play phase.
//!
//! Every inbound event is matched against a fixed priority order — heartbeat,
//! bootstrap, chat forward, teleport default — and the first match decides
//! the replies.  Unmatched events are silently dropped.  The pipeline is
//! sequential: the caller sends all replies of one outcome, performs the
//! pending bootstrap delay if one is due, and only then hands over the next
//! event.

use vstd::prelude::*;
use crate::chat::{chat_replies, fragment_group, group_suppressed};
use crate::events::{InboundEvent, OutboundEvent, SessionError};
use crate::step::{StepSequencer, STEP_CLIENT_SETTINGS, STEP_JOIN_GAME, STEP_RESPAWN};

verus! {

/// What one dispatched event produced: replies to send in order, whether
/// the delayed bootstrap follow-up is due, and the fatal error, if any,
/// that ends the session once the replies are out.
pub struct DispatchOutcome {
    pub replies: Vec<OutboundEvent>,
    pub bootstrap_pending: bool,
    pub fatal: Option<SessionError>,
}

/// The fixed locale of the client settings.
pub open spec fn settings_locale_spec() -> Seq<char> {
    "en_GB"@
}

/// The fixed locale of the client settings.
pub fn settings_locale() -> (r: &'static str)
    ensures
        r@ == settings_locale_spec(),
{
    "en_GB"
}

/// The fixed view distance of the client settings.
pub const SETTINGS_VIEW_DISTANCE: u8 = 2;

/// Dispatch one inbound event through the ordered handler chain.
///
/// A keepalive is answered at once with the identical echo id.  A join-game
/// event claims the join milestone and leaves the delayed settings follow-up
/// pending.  A server message forwards its surviving chat fragments, or
/// nothing when the group is suppressed.  A teleport is confirmed with the
/// identical teleport id, and the respawn milestone is claimed for the
/// client-status reply.  A rejected milestone claim is fatal after the
/// replies already produced.  Everything else is dropped.
pub fn dispatch(steps: &mut StepSequencer, username: &str, ev: InboundEvent) -> (out:
    DispatchOutcome)
    ensures
        match ev {
            InboundEvent::KeepAlive { id } => {
                &&& out.replies@.len() == 1
                &&& (out.replies@[0] matches OutboundEvent::KeepAliveReply { id: rid }
                    && rid == id)
                &&& !out.bootstrap_pending
                &&& out.fatal is None
                &&& final(steps).current_spec() == old(steps).current_spec()
            },
            InboundEvent::JoinGame => {
                &&& out.replies@.len() == 0
                &&& if STEP_JOIN_GAME > old(steps).current_spec() {
                    &&& out.bootstrap_pending
                    &&& out.fatal is None
                    &&& final(steps).current_spec() == STEP_JOIN_GAME
                } else {
                    &&& !out.bootstrap_pending
                    &&& (out.fatal matches Some(SessionError::Consistency(v))
                        && v.attempted == STEP_JOIN_GAME
                        && v.current == old(steps).current_spec())
                    &&& final(steps).current_spec() == old(steps).current_spec()
                }
            },
            InboundEvent::ServerMessage { position, primary, extras } => {
                &&& !out.bootstrap_pending
                &&& out.fatal is None
                &&& final(steps).current_spec() == old(steps).current_spec()
                &&& group_suppressed(
                    fragment_group(primary@, extras.deep_view()),
                    username@,
                ) ==> out.replies@.len() == 0
                &&& !group_suppressed(
                    fragment_group(primary@, extras.deep_view()),
                    username@,
                ) ==> {
                    let frags = fragment_group(primary@, extras.deep_view());
                    out.replies@.len() == frags.len() && (forall|k: int|
                        0 <= k < frags.len() ==> ((#[trigger] out.replies@[k])
                            matches OutboundEvent::ChatMessage { message }
                            && message@ == frags[k]))
                }
            },
            InboundEvent::TeleportPlayer { teleport_id } => {
                &&& !out.bootstrap_pending
                &&& out.replies@.len() >= 1
                &&& (out.replies@[0] matches OutboundEvent::TeleportConfirm { teleport_id: tid }
                    && tid == teleport_id)
                &&& if STEP_RESPAWN > old(steps).current_spec() {
                    &&& out.replies@.len() == 2
                    &&& (out.replies@[1] matches OutboundEvent::ClientStatus { action_id }
                        && action_id == 0)
                    &&& out.fatal is None
                    &&& final(steps).current_spec() == STEP_RESPAWN
                } else {
                    &&& out.replies@.len() == 1
                    &&& (out.fatal matches Some(SessionError::Consistency(v))
                        && v.attempted == STEP_RESPAWN
                        && v.current == old(steps).current_spec())
                    &&& final(steps).current_spec() == old(steps).current_spec()
                }
            },
            _ => {
                &&& out.replies@.len() == 0
                &&& !out.bootstrap_pending
                &&& out.fatal is None
                &&& final(steps).current_spec() == old(steps).current_spec()
            },
        },
{
    match ev {
        InboundEvent::KeepAlive { id } => {
            let mut replies: Vec<OutboundEvent> = Vec::new();
            replies.push(OutboundEvent::KeepAliveReply { id });
            DispatchOutcome { replies, bootstrap_pending: false, fatal: None }
        },
        InboundEvent::JoinGame => {
            match steps.claim(STEP_JOIN_GAME) {
                Ok(()) => DispatchOutcome {
                    replies: Vec::new(),
                    bootstrap_pending: true,
                    fatal: None,
                },
                Err(v) => DispatchOutcome {
                    replies: Vec::new(),
                    bootstrap_pending: false,
                    fatal: Some(SessionError::Consistency(v)),
                },
            }
        },
        InboundEvent::ServerMessage { position: _, primary, extras } => {
            let replies = chat_replies(username, &primary, &extras);
            DispatchOutcome { replies, bootstrap_pending: false, fatal: None }
        },
        InboundEvent::TeleportPlayer { teleport_id } => {
            let mut replies: Vec<OutboundEvent> = Vec::new();
            replies.push(OutboundEvent::TeleportConfirm { teleport_id });
            match steps.claim(STEP_RESPAWN) {
                Ok(()) => {
                    replies.push(OutboundEvent::ClientStatus { action_id: 0 });
                    DispatchOutcome { replies, bootstrap_pending: false, fatal: None }
                },
                Err(v) => DispatchOutcome {
                    replies,
                    bootstrap_pending: false,
                    fatal: Some(SessionError::Consistency(v)),
                },
            }
        },
        _ => DispatchOutcome { replies: Vec::new(), bootstrap_pending: false, fatal: None },
    }
}

/// The delayed bootstrap follow-up, run by the caller one second after a
/// join-game event left it pending: claim the settings milestone and emit
/// the fixed client settings.  A rejected claim is fatal.
pub fn bootstrap_settings(steps: &mut StepSequencer) -> (r: Result<OutboundEvent, SessionError>)
    ensures
        r is Ok <==> STEP_CLIENT_SETTINGS > old(steps).current_spec(),
        r matches Ok(ev) ==> (ev matches OutboundEvent::ClientSettings {
            locale,
            view_distance,
            chat_mode,
            chat_colors,
            displayed_skin_parts,
            main_hand,
        } && locale@ == settings_locale_spec() && view_distance == SETTINGS_VIEW_DISTANCE
            && chat_mode == 0 && chat_colors == false && displayed_skin_parts == 0
            && main_hand == 0),
        r is Ok ==> final(steps).current_spec() == STEP_CLIENT_SETTINGS,
        r matches Err(e) ==> (e matches SessionError::Consistency(v)
            && v.attempted == STEP_CLIENT_SETTINGS
            && v.current == old(steps).current_spec()
            && final(steps).current_spec() == old(steps).current_spec()),
{
    match steps.claim(STEP_CLIENT_SETTINGS) {
        Ok(()) => Ok(
            OutboundEvent::ClientSettings {
                locale: String::from_str(settings_locale()),
                view_distance: SETTINGS_VIEW_DISTANCE,
                chat_mode: 0,
                chat_colors: false,
                displayed_skin_parts: 0,
                main_hand: 0,
            },
        ),
        Err(v) => Err(SessionError::Consistency(v)),
    }
}

} // verus!
