//! The client side of the rig lease: what to ask, and what to make of the
//! answers. Connections, clocks and the background thread are the caller's.

use crate::lease::{
    Answered, Asked, Lease, LeaseReply, LeaseRequest, Slot, DEFAULT_TTL_S, SECOND,
};
use crate::text::{dec, join, mentions, push_dec, show_span, span, wrap};
use vstd::prelude::*;
use vstd::string::*;

verus! {

/// Pause between two attempts to acquire a busy lease, in nanoseconds.
pub const RETRY_PAUSE: u64 = 1_000_000_000;

/// Pause between two renewals, in nanoseconds: a third of the time to live.
pub const RENEW_PERIOD: u64 = 20_000_000_000;

/// What to do after an answer to the first acquisition.
#[derive(Debug)]
pub enum AcquireStep {
    /// The lease is ours.
    Held(LeaseClient),
    /// Pause, then ask again.
    Retry,
    GiveUp(AcquireError),
}

/// Why a lease was not acquired.
#[derive(Debug)]
pub enum AcquireError {
    /// Held by someone else until the deadline was over.
    Contended { holder: String, expires_in_s: u32, timeout_ns: u128 },
    /// Held by someone else when we asked once more.
    Lost { holder: String },
    /// Acknowledged, which is no answer to an acquisition.
    OnlyAcked,
    /// Refused as stale, which is no answer to an acquisition.
    OnlyGone,
    /// Told who holds the lease, which is no answer to an acquisition.
    OnlyStatus,
}

/// What woke the renewing thread.
#[derive(Debug, Clone, Copy, PartialEq, Eq, Structural)]
pub enum Wake {
    /// The rig is going away.
    Stopped,
    /// A renewal is due.
    Due,
}

/// What the renewing thread does next.
#[derive(Debug)]
pub enum Turn {
    /// Send this, ignore the answer, and end.
    Last(LeaseRequest),
    /// Send this and look at the answer.
    Ask(LeaseRequest),
}

/// Why a lease has to be acquired anew.
#[derive(Debug)]
pub enum Interruption {
    /// The server no longer knows the lease.
    Expired,
    /// The connection broke.
    Broken(String),
}

/// What to make of the answer to a renewal.
#[derive(Debug)]
pub enum RenewStep {
    Keep,
    Reacquire(Interruption),
    /// Report an answer that no renewal gets, and go on.
    Report(LeaseReply),
}

/// A held rig lease.
#[derive(Debug)]
pub struct LeaseClient {
    pub id: u64,
}

impl LeaseClient {
    /// The request that asks for the lease.
    pub fn request(holder: String) -> (r: LeaseRequest)
        ensures
            r == (LeaseRequest::Acquire { holder, ttl_s: DEFAULT_TTL_S }),
    {
        LeaseRequest::Acquire { holder, ttl_s: DEFAULT_TTL_S }
    }

    /// What to do after the answer `reply` to an acquisition: retry while the
    /// lease is busy, until the deadline is over.
    pub fn acquire(reply: LeaseReply, past_deadline: bool, timeout_ns: u128) -> (r: AcquireStep)
        ensures
            r == match reply {
                LeaseReply::Granted { id } => AcquireStep::Held(LeaseClient { id }),
                LeaseReply::Busy { holder, expires_in_s } => if past_deadline {
                    AcquireStep::GiveUp(
                        AcquireError::Contended { holder, expires_in_s, timeout_ns },
                    )
                } else {
                    AcquireStep::Retry
                },
                LeaseReply::Acked => AcquireStep::GiveUp(AcquireError::OnlyAcked),
                LeaseReply::Gone => AcquireStep::GiveUp(AcquireError::OnlyGone),
                LeaseReply::Status { .. } => AcquireStep::GiveUp(AcquireError::OnlyStatus),
            },
    {
        match reply {
            LeaseReply::Granted { id } => AcquireStep::Held(LeaseClient { id }),
            LeaseReply::Busy { holder, expires_in_s } => if past_deadline {
                AcquireStep::GiveUp(AcquireError::Contended { holder, expires_in_s, timeout_ns })
            } else {
                AcquireStep::Retry
            },
            LeaseReply::Acked => AcquireStep::GiveUp(AcquireError::OnlyAcked),
            LeaseReply::Gone => AcquireStep::GiveUp(AcquireError::OnlyGone),
            LeaseReply::Status { .. } => AcquireStep::GiveUp(AcquireError::OnlyStatus),
        }
    }

    /// What the renewing thread does when it wakes: renew, or release and end.
    pub fn turn(&self, wake: Wake) -> (r: Turn)
        ensures
            r == match wake {
                Wake::Stopped => Turn::Last(LeaseRequest::Release { id: self.id }),
                Wake::Due => Turn::Ask(LeaseRequest::Renew { id: self.id }),
            },
    {
        match wake {
            Wake::Stopped => Turn::Last(LeaseRequest::Release { id: self.id }),
            Wake::Due => Turn::Ask(LeaseRequest::Renew { id: self.id }),
        }
    }

    /// What to make of the outcome of a renewal.
    pub fn renewed(outcome: Result<LeaseReply, String>) -> (r: RenewStep)
        ensures
            r == match outcome {
                Ok(LeaseReply::Acked) => RenewStep::Keep,
                Ok(LeaseReply::Gone) => RenewStep::Reacquire(Interruption::Expired),
                Ok(other) => RenewStep::Report(other),
                Err(e) => RenewStep::Reacquire(Interruption::Broken(e)),
            },
    {
        match outcome {
            Ok(LeaseReply::Acked) => RenewStep::Keep,
            Ok(LeaseReply::Gone) => RenewStep::Reacquire(Interruption::Expired),
            Ok(other) => RenewStep::Report(other),
            Err(e) => RenewStep::Reacquire(Interruption::Broken(e)),
        }
    }

    /// The requests that acquire the lease anew on a fresh connection after
    /// the old one broke: our own lease may still be in force, and would keep
    /// us out like anybody else, so it is given back first.
    pub fn resume(&self, holder: String) -> (r: (LeaseRequest, LeaseRequest))
        ensures
            r.0 == (LeaseRequest::Release { id: self.id }),
            r.1 == (LeaseRequest::Acquire { holder, ttl_s: DEFAULT_TTL_S }),
    {
        (LeaseRequest::Release { id: self.id }, LeaseClient::request(holder))
    }

    /// What to send, in order, on the fresh connection on which the lease is
    /// acquired anew; the answer to the last request counts. A lease that
    /// expired is not ours to give back.
    pub fn ask_anew(&self, cause: &Interruption, holder: String) -> (r: Vec<LeaseRequest>)
        ensures
            r@ == match cause {
                Interruption::Expired => seq![
                    LeaseRequest::Acquire { holder, ttl_s: DEFAULT_TTL_S },
                ],
                Interruption::Broken(_) => seq![
                    LeaseRequest::Release { id: self.id },
                    LeaseRequest::Acquire { holder, ttl_s: DEFAULT_TTL_S },
                ],
            },
    {
        let mut v: Vec<LeaseRequest> = Vec::new();
        match cause {
            Interruption::Expired => v.push(LeaseClient::request(holder)),
            Interruption::Broken(_) => {
                let (first, second) = self.resume(holder);
                v.push(first);
                v.push(second);
            },
        }
        v
    }

    /// What to make of the answer that asking anew gets.
    pub fn reacquire(reply: LeaseReply) -> (r: Result<u64, AcquireError>)
        ensures
            r == match reply {
                LeaseReply::Granted { id } => Ok::<u64, AcquireError>(id),
                LeaseReply::Busy { holder, .. } => Err(AcquireError::Lost { holder }),
                LeaseReply::Acked => Err(AcquireError::OnlyAcked),
                LeaseReply::Gone => Err(AcquireError::OnlyGone),
                LeaseReply::Status { .. } => Err(AcquireError::OnlyStatus),
            },
    {
        match reply {
            LeaseReply::Granted { id } => Ok(id),
            LeaseReply::Busy { holder, .. } => Err(AcquireError::Lost { holder }),
            LeaseReply::Acked => Err(AcquireError::OnlyAcked),
            LeaseReply::Gone => Err(AcquireError::OnlyGone),
            LeaseReply::Status { .. } => Err(AcquireError::OnlyStatus),
        }
    }

    /// Goes on with the lease acquired anew; without one, keeps the old id
    /// and says what to report.
    pub fn adopt(&mut self, outcome: Result<u64, String>, cause: &Interruption) -> (r: Option<
        String,
    >)
        ensures
            match outcome {
                Ok(id) => final(self).id == id && r is None,
                Err(e) => final(self).id == old(self).id && (r matches Some(text) && text@
                    == cause.lost_text(e@)),
            },
    {
        match outcome {
            Ok(id) => {
                self.id = id;
                None
            },
            Err(e) => Some(
                match cause {
                    Interruption::Expired => join(
                        "banc: rig lease lost and re-acquire failed: ",
                        e.as_str(),
                    ),
                    Interruption::Broken(_) => join(
                        "banc: lease reconnect failed: ",
                        e.as_str(),
                    ),
                },
            ),
        }
    }
}

/// What a lease server says of its lease.
#[derive(Debug)]
pub struct LeaseStatus {
    pub holder: Option<String>,
    pub expires_in_s: u32,
}

/// Who holds the lease, out of the answer to a status query.
pub fn query_status(reply: LeaseReply) -> (r: Result<LeaseStatus, String>)
    ensures
        match reply {
            LeaseReply::Status { current, left_s } => r == Ok::<LeaseStatus, String>(
                LeaseStatus { holder: current, expires_in_s: left_s },
            ),
            _ => r matches Err(e) && e@ == "unexpected reply to Status"@,
        },
{
    match reply {
        LeaseReply::Status { current, left_s } => Ok(
            LeaseStatus { holder: current, expires_in_s: left_s },
        ),
        _ => Err("unexpected reply to Status".to_owned()),
    }
}

impl Interruption {
    /// The text that reports the interruption.
    pub open spec fn text(self) -> Seq<char> {
        match self {
            Interruption::Expired => "banc: rig lease expired mid-run; re-acquiring"@,
            Interruption::Broken(e) => "banc: lease renew failed ("@ + e@ + "); reconnecting"@,
        }
    }

    /// The text that reports that the lease could not be acquired anew.
    pub open spec fn lost_text(self, e: Seq<char>) -> Seq<char> {
        match self {
            Interruption::Expired => "banc: rig lease lost and re-acquire failed: "@ + e,
            Interruption::Broken(_) => "banc: lease reconnect failed: "@ + e,
        }
    }

    /// Reports the interruption.
    pub fn to_string(&self) -> (r: String)
        ensures
            r@ == self.text(),
    {
        match self {
            Interruption::Expired => "banc: rig lease expired mid-run; re-acquiring".to_owned(),
            Interruption::Broken(e) => wrap(
                "banc: lease renew failed (",
                e.as_str(),
                "); reconnecting",
            ),
        }
    }
}

impl AcquireError {
    /// The text that reports the error.
    pub open spec fn text(self) -> Seq<char> {
        match self {
            AcquireError::Contended { holder, expires_in_s, timeout_ns } => "rig lease held by '"@
                + holder@ + "' (expires in "@ + dec(expires_in_s as nat) + "s), gave up after "@
                + span(timeout_ns as nat),
            AcquireError::Lost { holder } => "lease now held by '"@ + holder@ + "'"@,
            AcquireError::OnlyAcked => "unexpected reply to Acquire: Ok"@,
            AcquireError::OnlyGone => "unexpected reply to Acquire: Gone"@,
            AcquireError::OnlyStatus => "unexpected reply to Acquire: Status"@,
        }
    }

    /// Reports the error.
    pub fn to_string(&self) -> (r: String)
        ensures
            r@ == self.text(),
    {
        match self {
            AcquireError::Contended { holder, expires_in_s, timeout_ns } => {
                let mut out = wrap("rig lease held by '", holder.as_str(), "' (expires in ");
                push_dec(&mut out, *expires_in_s as u128);
                out.append("s), gave up after ");
                out.append(show_span(*timeout_ns).as_str());
                out
            },
            AcquireError::Lost { holder } => wrap("lease now held by '", holder.as_str(), "'"),
            AcquireError::OnlyAcked => "unexpected reply to Acquire: Ok".to_owned(),
            AcquireError::OnlyGone => "unexpected reply to Acquire: Gone".to_owned(),
            AcquireError::OnlyStatus => "unexpected reply to Acquire: Status".to_owned(),
        }
    }
}

/// One missed renewal does not lose the rig: within two renewal periods of
/// the grant, or of an accepted renewal, the server accepts the next one.
pub proof fn one_missed_renewal_is_harmless(
    slot: Slot,
    lease: Lease,
    holder: Seq<char>,
    now: u64,
    later: u64,
)
    requires
        now <= later <= now + 2 * RENEW_PERIOD,
    ensures
        slot.current(now) is None ==> slot.after(
            Asked::Acquire { holder, ttl_s: DEFAULT_TTL_S },
            now,
        ).answer(Asked::Renew { id: slot.next_id }, later) == Answered::Acked,
        slot.current(now) == Some(lease) && lease.ttl == DEFAULT_TTL_S * SECOND ==> slot.after(
            Asked::Renew { id: lease.id },
            now,
        ).answer(Asked::Renew { id: lease.id }, later) == Answered::Acked,
{
}

/// Two missed renewals in a row do not lose the rig to someone else: until
/// the third is due, others are told that it is busy; and when that comes too
/// late, acquiring anew is granted if nobody else asked first.
pub proof fn two_missed_renewals_keep_the_rig(
    slot: Slot,
    holder: Seq<char>,
    other: Seq<char>,
    ttl_s: u32,
    now: u64,
    later: u64,
)
    requires
        slot.current(now) is None,
        now <= later,
    ensures
        ({
            let held = slot.after(Asked::Acquire { holder, ttl_s: DEFAULT_TTL_S }, now);
            let id = slot.next_id;
            &&& later < now + 3 * RENEW_PERIOD ==> held.answer(
                Asked::Acquire { holder: other, ttl_s },
                later,
            ) is Busy
            &&& later >= now + 3 * RENEW_PERIOD ==> held.answer(Asked::Renew { id }, later)
                == Answered::Gone && held.after(Asked::Renew { id }, later).answer(
                Asked::Acquire { holder, ttl_s: DEFAULT_TTL_S },
                later,
            ) is Granted
        }),
{
}

/// A broken connection is survived. Unless someone else got the rig in
/// between, the requests sent on the new connection are answered with a new
/// lease, which is then renewed like the old one was; and someone else's
/// lease is left alone.
pub proof fn a_broken_connection_is_survived(
    slot: Slot,
    client: LeaseClient,
    holder: Seq<char>,
    now: u64,
    later: u64,
)
    requires
        now <= later <= now + 2 * RENEW_PERIOD,
    ensures
        ({
            let freed = slot.after(Asked::Release { id: client.id }, now);
            let ask = Asked::Acquire { holder, ttl_s: DEFAULT_TTL_S };
            let ours = slot.current(now) matches Some(l) ==> l.id == client.id;
            &&& ours ==> freed.answer(ask, now) == (Answered::Granted { id: slot.next_id })
            &&& ours ==> freed.after(ask, now).answer(Asked::Renew { id: slot.next_id }, later)
                == Answered::Acked
            &&& !ours ==> freed.answer(ask, now) is Busy && freed.after(ask, now).current(now)
                == slot.current(now)
        }),
{
}

/// A look at the lease tells who holds it and changes nothing about it.
pub proof fn a_look_does_not_contend(slot: Slot, now: u64, later: u64)
    requires
        now <= later,
    ensures
        slot.answer(Asked::Status, now) matches Answered::Status { current, .. } && current
            == match slot.current(now) {
            Some(lease) => Some(lease.holder),
            None => None,
        },
        slot.after(Asked::Status, now).current(later) == slot.current(later),
        slot.after(Asked::Status, now).next_id == slot.next_id,
{
}

/// Dropping a client frees the rig for the next one.
pub proof fn release_on_drop_frees_the_rig(
    slot: Slot,
    client: LeaseClient,
    holder: Seq<char>,
    ttl_s: u32,
    now: u64,
)
    requires
        slot.current(now) matches Some(lease) && lease.id == client.id,
    ensures
        slot.after(Asked::Release { id: client.id }, now).answer(
            Asked::Acquire { holder, ttl_s },
            now,
        ) is Granted,
{
}

/// A client asks in its own name, for a minute.
pub proof fn a_client_asks_in_its_name(holder: String, r: LeaseRequest)
    requires
        call_ensures(LeaseClient::request, (holder,), r),
    ensures
        r matches LeaseRequest::Acquire { holder: h, ttl_s } && h@ == holder@ && ttl_s == 60,
{
}

/// A grant is taken, under the id granted; a busy rig is asked again until
/// the deadline, and then given up, by who holds it; and nothing else is ever
/// taken for a grant.
pub proof fn only_a_grant_is_held(
    reply: LeaseReply,
    past_deadline: bool,
    timeout_ns: u128,
    r: AcquireStep,
)
    requires
        call_ensures(LeaseClient::acquire, (reply, past_deadline, timeout_ns), r),
    ensures
        r is Held == reply is Granted,
        r matches AcquireStep::Held(client) ==> client.id == reply->Granted_id,
        r is Retry == (reply is Busy && !past_deadline),
        reply is Busy && past_deadline ==> (r matches AcquireStep::GiveUp(AcquireError::Contended {
            holder,
            expires_in_s,
            timeout_ns: t,
        }) && holder@ == reply->holder@ && expires_in_s == reply->expires_in_s && t == timeout_ns),
        reply is Acked ==> (r matches AcquireStep::GiveUp(AcquireError::OnlyAcked)),
        reply is Gone ==> (r matches AcquireStep::GiveUp(AcquireError::OnlyGone)),
        reply is Status ==> (r matches AcquireStep::GiveUp(AcquireError::OnlyStatus)),
{
}

/// A client that wakes renews its own lease, or, when the rig is going away,
/// gives its own lease back and ends.
pub proof fn a_client_speaks_for_its_own_lease(client: LeaseClient, wake: Wake, r: Turn)
    requires
        call_ensures(LeaseClient::turn, (&client, wake), r),
    ensures
        wake is Due ==> (r matches Turn::Ask(LeaseRequest::Renew { id }) && id == client.id),
        wake is Stopped ==> (r matches Turn::Last(LeaseRequest::Release { id }) && id
            == client.id),
{
}

/// A lease is kept exactly when its renewal was acknowledged; it is acquired
/// anew when it expired, or when the connection broke, for that reason.
pub proof fn only_an_acknowledged_lease_is_kept(
    outcome: Result<LeaseReply, String>,
    r: RenewStep,
)
    requires
        call_ensures(LeaseClient::renewed, (outcome,), r),
    ensures
        r is Keep == (outcome matches Ok(LeaseReply::Acked)),
        (r matches RenewStep::Reacquire(Interruption::Expired)) == (outcome matches Ok(
            LeaseReply::Gone,
        )),
        (r matches RenewStep::Reacquire(Interruption::Broken(_))) == outcome is Err,
        outcome matches Err(e) ==> (r matches RenewStep::Reacquire(Interruption::Broken(why))
            && why@ == e@),
        r matches RenewStep::Report(other) ==> outcome == Ok::<LeaseReply, String>(other),
{
}

/// What is sent to acquire a lease anew ends with asking for it in the
/// client's own name. After a broken connection the client's own lease, and
/// no other, is given back first; one that expired is not touched.
pub proof fn asking_anew_frees_only_its_own(
    client: LeaseClient,
    cause: Interruption,
    holder: String,
    r: Vec<LeaseRequest>,
)
    requires
        call_ensures(LeaseClient::ask_anew, (&client, &cause, holder), r),
    ensures
        r@.len() == if cause is Broken {
            2int
        } else {
            1
        },
        r@.last() matches LeaseRequest::Acquire { holder: h, ttl_s } && h@ == holder@ && ttl_s
            == 60,
        cause is Broken ==> (r@[0] matches LeaseRequest::Release { id } && id == client.id),
{
}

/// A lease acquired anew is the one granted, and is renewed from then on;
/// whatever else is answered, there is none, the old id is kept, and what is
/// reported says why.
pub proof fn a_lease_acquired_anew_is_adopted(
    reply: LeaseReply,
    asked: Result<u64, AcquireError>,
    client: &mut LeaseClient,
    outcome: Result<u64, String>,
    cause: Interruption,
    r: Option<String>,
)
    requires
        call_ensures(LeaseClient::reacquire, (reply,), asked),
        call_ensures(LeaseClient::adopt, (client, outcome, &cause), r),
    ensures
        asked is Ok == reply is Granted,
        asked matches Ok(id) ==> id == reply->Granted_id,
        reply is Busy ==> (asked matches Err(AcquireError::Lost { holder }) && holder@
            == reply->holder@),
        reply is Acked ==> (asked matches Err(AcquireError::OnlyAcked)),
        reply is Gone ==> (asked matches Err(AcquireError::OnlyGone)),
        reply is Status ==> (asked matches Err(AcquireError::OnlyStatus)),
        outcome matches Ok(id) ==> final(client).id == id && r is None,
        outcome matches Err(e) ==> final(client).id == old(client).id && (r matches Some(text)
            && mentions(text@, e@)),
{
    broadcast use crate::text::group_mentions;

}

/// A status answer is passed on as it is, and nothing else is taken for one.
pub proof fn a_status_is_passed_on(reply: LeaseReply, r: Result<LeaseStatus, String>)
    requires
        call_ensures(query_status, (reply,), r),
    ensures
        r is Ok == reply is Status,
        r matches Ok(s) ==> s.holder == reply->current && s.expires_in_s == reply->left_s,
{
}

/// What is reported of a lease says who holds it, and why it was lost.
pub proof fn a_lease_report_names_the_holder(
    e: AcquireError,
    r: String,
    waited: String,
    cause: Interruption,
    lost: String,
)
    requires
        call_ensures(AcquireError::to_string, (&e,), r),
        e matches AcquireError::Contended { timeout_ns, .. } ==> call_ensures(
            show_span,
            (timeout_ns,),
            waited,
        ),
        call_ensures(Interruption::to_string, (&cause,), lost),
    ensures
        e matches AcquireError::Contended { holder, expires_in_s, .. } ==> r@
            == "rig lease held by '"@ + holder@ + "' (expires in "@ + dec(expires_in_s as nat)
            + "s), gave up after "@ + waited@,
        e matches AcquireError::Lost { holder } ==> r@ == "lease now held by '"@ + holder@ + "'"@,
        e is OnlyAcked ==> r@ == "unexpected reply to Acquire: Ok"@,
        e is OnlyGone ==> r@ == "unexpected reply to Acquire: Gone"@,
        e is OnlyStatus ==> r@ == "unexpected reply to Acquire: Status"@,
        cause is Expired ==> lost@ == "banc: rig lease expired mid-run; re-acquiring"@,
        cause matches Interruption::Broken(why) ==> mentions(lost@, why@),
{
    broadcast use crate::text::group_mentions;

}

/// After a broken connection the client's own lease is given back, and then
/// asked for anew in its own name, for a minute.
pub proof fn resuming_gives_back_and_asks(
    client: LeaseClient,
    holder: String,
    r: (LeaseRequest, LeaseRequest),
)
    requires
        call_ensures(LeaseClient::resume, (&client, holder), r),
    ensures
        r.0 matches LeaseRequest::Release { id } && id == client.id,
        r.1 matches LeaseRequest::Acquire { holder: h, ttl_s } && h@ == holder@ && ttl_s == 60,
{
}

} // verus!
