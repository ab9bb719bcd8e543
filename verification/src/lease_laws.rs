//! What the lease protocol guarantees across requests.

use crate::lease::{
    granted_ttl, reply_reads_back, request_reads_back, Answered, Asked, Lease, LeaseReply,
    LeaseRequest, LeaseServer, Slot, SECOND,
};
use crate::wire::{
    option_bytes, option_fault, option_reads_back, option_view, take_option_of, take_text_of,
    take_u32_of, take_u64_of, text_bytes, text_fault, text_reads_back, u32_fault, u32_reads_back,
    u64_fault, u64_reads_back, varint,
};
use vstd::prelude::*;

verus! {

/// A request and the time at which it arrives.
pub struct Arrival {
    pub q: Asked,
    pub now: u64,
}

/// The state after the first `n` arrivals.
pub open spec fn after_run(slot: Slot, run: Seq<Arrival>, n: int) -> Slot
    decreases n,
{
    if n <= 0 {
        slot
    } else {
        after_run(slot, run, n - 1).after(run[n - 1].q, run[n - 1].now)
    }
}

/// The answer to the `n`-th arrival.
pub open spec fn answer_in_run(slot: Slot, run: Seq<Arrival>, n: int) -> Answered {
    after_run(slot, run, n).answer(run[n].q, run[n].now)
}

/// The arrivals come in order, the first no earlier than `from`, the last
/// before `until`.
pub open spec fn arrive_between(run: Seq<Arrival>, from: u64, until: nat) -> bool {
    &&& forall|i: int| 0 <= i < run.len() ==> from <= (#[trigger] run[i]).now < until
    &&& forall|i: int, j: int|
        0 <= i <= j < run.len() ==> (#[trigger] run[i]).now <= (#[trigger] run[j]).now
}

/// The id that the slot holds, if any, was granted before the next one.
pub open spec fn ids_ordered(slot: Slot) -> bool {
    slot.held matches Some(lease) ==> lease.id < slot.next_id
}

/// One holder at a time: while a lease is in force, every other contender is
/// told who holds it, and the state of the rig does not change.
pub proof fn second_holder_is_refused(slot: Slot, holder: Seq<char>, ttl_s: u32, now: u64)
    requires
        slot.current(now) is Some,
    ensures
        slot.answer(Asked::Acquire { holder, ttl_s }, now) == (Answered::Busy {
            holder: slot.current(now)->0.holder,
            expires_in_s: ((slot.current(now)->0.expires_at - now) / SECOND as int) as u32,
        }),
        slot.after(Asked::Acquire { holder, ttl_s }, now) == slot,
{
}

/// A free rig is granted to whoever asks first, at once, and the lease is
/// then in force for the time granted and no longer.
pub proof fn free_rig_is_granted(slot: Slot, holder: Seq<char>, ttl_s: u32, now: u64, later: u64)
    requires
        slot.current(now) is None,
    ensures
        slot.answer(Asked::Acquire { holder, ttl_s }, now) == (Answered::Granted {
            id: slot.next_id,
        }),
        ({
            let next = slot.after(Asked::Acquire { holder, ttl_s }, now);
            &&& (next.current(later) is Some) == (later < now + granted_ttl(ttl_s))
            &&& next.current(later) matches Some(lease) ==> lease.id == slot.next_id
                && lease.holder == holder
        }),
{
}

/// A holder that stops renewing loses the lease: once its time has passed,
/// its renewal is refused and the rig goes to the next contender.
pub proof fn expired_lease_is_displaced(
    slot: Slot,
    lease: Lease,
    holder: Seq<char>,
    ttl_s: u32,
    now: u64,
)
    requires
        slot.held == Some(lease),
        lease.expires_at <= now,
    ensures
        slot.answer(Asked::Renew { id: lease.id }, now) == Answered::Gone,
        slot.answer(Asked::Acquire { holder, ttl_s }, now) == (Answered::Granted {
            id: slot.next_id,
        }),
{
}

/// Releasing the lease frees the rig; releasing any other id leaves whoever
/// holds it in place. Either way the release is acknowledged.
pub proof fn release_frees_only_its_own(slot: Slot, id: u64, now: u64)
    ensures
        slot.answer(Asked::Release { id }, now) == Answered::Acked,
        slot.after(Asked::Release { id }, now).current(now) == match slot.current(now) {
            Some(lease) => if lease.id == id {
                None
            } else {
                Some(lease)
            },
            None => None,
        },
{
}

/// Releasing twice is the same as releasing once.
pub proof fn release_is_idempotent(slot: Slot, id: u64, now: u64)
    ensures
        slot.after(Asked::Release { id }, now).after(Asked::Release { id }, now) == slot.after(
            Asked::Release { id },
            now,
        ),
{
}

/// A renewal by the holder restarts the time to live, and changes nothing
/// else about the lease.
pub proof fn renewal_restarts_the_clock(slot: Slot, lease: Lease, now: u64, later: u64)
    requires
        slot.wf(),
        slot.current(now) == Some(lease),
    ensures
        slot.answer(Asked::Renew { id: lease.id }, now) == Answered::Acked,
        ({
            let next = slot.after(Asked::Renew { id: lease.id }, now);
            &&& (next.current(later) is Some) == (later < now + lease.ttl)
            &&& next.current(later) matches Some(l) ==> l.id == lease.id && l.holder
                == lease.holder && l.ttl == lease.ttl
        }),
{
}

/// Whatever arrives, every lease keeps a time to live between five seconds
/// and an hour.
pub proof fn every_lease_expires(slot: Slot, run: Seq<Arrival>, n: int)
    requires
        slot.wf(),
        0 <= n <= run.len(),
    ensures
        after_run(slot, run, n).wf(),
    decreases n,
{
    if n > 0 {
        every_lease_expires(slot, run, n - 1);
    }
}

/// A lease in force survives whatever the others ask for: until its time has
/// passed, only a release of its own id ends it.
pub proof fn lease_survives_contention(
    slot: Slot,
    lease: Lease,
    run: Seq<Arrival>,
    from: u64,
    n: int,
)
    requires
        slot.wf(),
        slot.held == Some(lease),
        lease.expires_at <= from + lease.ttl,
        arrive_between(run, from, lease.expires_at),
        0 <= n <= run.len(),
        forall|i: int| 0 <= i < n ==> (#[trigger] run[i]).q != (Asked::Release { id: lease.id }),
    ensures
        after_run(slot, run, n).held matches Some(l) && l.id == lease.id && l.holder
            == lease.holder && l.ttl == lease.ttl && l.expires_at >= lease.expires_at,
    decreases n,
{
    if n > 0 {
        lease_survives_contention(slot, lease, run, from, n - 1);
        let before = after_run(slot, run, n - 1);
        let a = run[n - 1];
        assert(a.now < lease.expires_at);
        assert(before.current(a.now) == before.held);
    }
}

/// When the lease `id` was last granted or renewed, after the first `n`
/// arrivals.
pub open spec fn last_renewal(run: Seq<Arrival>, id: u64, granted_at: u64, n: int) -> u64
    decreases n,
{
    if n <= 0 {
        granted_at
    } else if run[n - 1].q == (Asked::Renew { id }) {
        run[n - 1].now
    } else {
        last_renewal(run, id, granted_at, n - 1)
    }
}

/// A holder that keeps renewing in time keeps the rig, whatever the others
/// ask for and however long it goes on: its renewals are accepted, and every
/// other contender is told that the rig is busy.
pub proof fn a_renewing_holder_keeps_the_rig(
    slot: Slot,
    lease: Lease,
    granted_at: u64,
    run: Seq<Arrival>,
    n: int,
)
    requires
        slot.wf(),
        slot.held == Some(lease),
        lease.expires_at == granted_at + lease.ttl,
        forall|i: int|
            0 <= i < run.len() ==> (#[trigger] run[i]).now < last_renewal(
                run,
                lease.id,
                granted_at,
                i,
            ) + lease.ttl,
        forall|i: int|
            0 <= i < run.len() ==> (#[trigger] run[i]).q != (Asked::Release { id: lease.id }),
        0 <= n < run.len(),
    ensures
        after_run(slot, run, n).current(run[n].now) matches Some(l) && l.id == lease.id && l.holder
            == lease.holder && l.ttl == lease.ttl,
        run[n].q == (Asked::Renew { id: lease.id }) ==> answer_in_run(slot, run, n)
            == Answered::Acked,
        run[n].q is Acquire ==> answer_in_run(slot, run, n) is Busy,
{
    lemma_kept(slot, lease, granted_at, run, n);
}

proof fn lemma_kept(slot: Slot, lease: Lease, granted_at: u64, run: Seq<Arrival>, n: int)
    requires
        slot.wf(),
        slot.held == Some(lease),
        lease.expires_at == granted_at + lease.ttl,
        forall|i: int|
            0 <= i < run.len() ==> (#[trigger] run[i]).now < last_renewal(
                run,
                lease.id,
                granted_at,
                i,
            ) + lease.ttl,
        forall|i: int|
            0 <= i < run.len() ==> (#[trigger] run[i]).q != (Asked::Release { id: lease.id }),
        0 <= n <= run.len(),
    ensures
        after_run(slot, run, n).held matches Some(l) && l.id == lease.id && l.holder
            == lease.holder && l.ttl == lease.ttl && l.expires_at == last_renewal(
            run,
            lease.id,
            granted_at,
            n,
        ) + lease.ttl,
    decreases n,
{
    if n > 0 {
        lemma_kept(slot, lease, granted_at, run, n - 1);
        let before = after_run(slot, run, n - 1);
        let a = run[n - 1];
        assert(before.current(a.now) == before.held);
    }
}

/// How many of the first `n` arrivals were granted the lease.
pub open spec fn grants(slot: Slot, run: Seq<Arrival>, n: int) -> nat
    decreases n,
{
    if n <= 0 {
        0
    } else if answer_in_run(slot, run, n - 1) is Granted {
        grants(slot, run, n - 1) + 1
    } else {
        grants(slot, run, n - 1)
    }
}

/// There are ids for all grants of the run. A fresh server runs out of them
/// after 2^64 - 2 grants, however many requests it answers.
pub open spec fn ids_suffice(slot: Slot, run: Seq<Arrival>) -> bool {
    slot.next_id + grants(slot, run, run.len() as int) <= u64::MAX
}

/// Until ids run out, no id is granted twice: of two grants in one run, the
/// later has the larger id.
pub proof fn ids_are_never_reused(slot: Slot, run: Seq<Arrival>, i: int, j: int)
    requires
        ids_suffice(slot, run),
        0 <= i < j < run.len(),
        answer_in_run(slot, run, i) is Granted,
        answer_in_run(slot, run, j) is Granted,
    ensures
        answer_in_run(slot, run, i)->Granted_id < answer_in_run(slot, run, j)->Granted_id,
{
    lemma_grants_grow(slot, run, i + 1, j);
    lemma_grants_grow(slot, run, j, run.len() as int);
    lemma_next_id(slot, run, i);
    lemma_next_id(slot, run, j);
}

proof fn lemma_grants_grow(slot: Slot, run: Seq<Arrival>, m: int, n: int)
    requires
        0 <= m <= n,
    ensures
        grants(slot, run, m) <= grants(slot, run, n),
    decreases n - m,
{
    if m < n {
        lemma_grants_grow(slot, run, m, n - 1);
    }
}

proof fn lemma_next_id(slot: Slot, run: Seq<Arrival>, n: int)
    requires
        ids_suffice(slot, run),
        0 <= n <= run.len(),
    ensures
        after_run(slot, run, n).next_id == slot.next_id + grants(slot, run, n),
    decreases n,
{
    lemma_grants_grow(slot, run, n, run.len() as int);
    if n > 0 {
        lemma_next_id(slot, run, n - 1);
    }
}

/// A lease that was displaced stays gone: until ids run out, no later
/// renewal of its id is ever accepted, and no later release of it touches
/// whoever holds the rig then.
pub proof fn displaced_lease_stays_gone(slot: Slot, id: u64, run: Seq<Arrival>, n: int)
    requires
        ids_suffice(slot, run),
        id < slot.next_id,
        slot.held matches Some(lease) ==> lease.id != id,
        0 <= n < run.len(),
    ensures
        run[n].q == (Asked::Renew { id }) ==> answer_in_run(slot, run, n) == Answered::Gone,
        run[n].q == (Asked::Release { id }) ==> after_run(slot, run, n + 1).current(run[n].now)
            == after_run(slot, run, n).current(run[n].now),
{
    lemma_stays_gone(slot, id, run, n);
}

proof fn lemma_stays_gone(slot: Slot, id: u64, run: Seq<Arrival>, n: int)
    requires
        ids_suffice(slot, run),
        id < slot.next_id,
        slot.held matches Some(lease) ==> lease.id != id,
        0 <= n <= run.len(),
    ensures
        after_run(slot, run, n).held matches Some(lease) ==> lease.id != id,
    decreases n,
{
    if n > 0 {
        lemma_stays_gone(slot, id, run, n - 1);
        lemma_next_id(slot, run, n - 1);
    }
}

/// From a fresh server on, the id in the slot is always one granted before
/// the next, until ids run out.
pub proof fn ids_stay_ordered(slot: Slot, run: Seq<Arrival>, n: int)
    requires
        ids_suffice(slot, run),
        ids_ordered(slot),
        0 <= n <= run.len(),
    ensures
        ids_ordered(after_run(slot, run, n)),
    decreases n,
{
    if n > 0 {
        ids_stay_ordered(slot, run, n - 1);
        lemma_next_id(slot, run, n - 1);
        lemma_next_id(slot, run, n);
    }
}

/// `secs` is the time to live, in seconds, that is granted for `ttl_s`: what
/// was asked for, but at least five seconds and at most an hour.
pub open spec fn is_granted_for(secs: nat, ttl_s: u32) -> bool {
    &&& ttl_s < 5 ==> secs == 5
    &&& 5 <= ttl_s <= 3600 ==> secs == ttl_s
    &&& ttl_s > 3600 ==> secs == 3600
}

/// `reply` is what a request gets at time `t` while `holder` holds the lease
/// `id` until the time `until`: contenders and onlookers learn who holds it
/// and how many whole seconds are left; only its own id is renewed.
pub open spec fn answers_held(
    q: LeaseRequest,
    reply: LeaseReply,
    id: u64,
    holder: Seq<char>,
    until: nat,
    t: u64,
) -> bool {
    match q {
        LeaseRequest::Acquire { .. } => reply matches LeaseReply::Busy { holder: h, expires_in_s: s }
            && h@ == holder && s * 1_000_000_000 <= until - t < (s + 1) * 1_000_000_000,
        LeaseRequest::Renew { id: i } => if i == id {
            reply is Acked
        } else {
            reply is Gone
        },
        LeaseRequest::Release { .. } => reply is Acked,
        LeaseRequest::Status => reply matches LeaseReply::Status { current: Some(h), left_s: s }
            && h@ == holder && s * 1_000_000_000 <= until - t < (s + 1) * 1_000_000_000,
    }
}

/// `reply` is what a request gets while nobody holds the lease and `id` was
/// granted last: whoever asks is granted the next id, and none is renewed.
pub open spec fn answers_free(q: LeaseRequest, reply: LeaseReply, id: u64) -> bool {
    match q {
        LeaseRequest::Acquire { .. } => reply matches LeaseReply::Granted { id: i } && if id
            == 18446744073709551615 {
            i == 0
        } else {
            i == id + 1
        },
        LeaseRequest::Renew { .. } => reply is Gone,
        LeaseRequest::Release { .. } => reply is Acked,
        LeaseRequest::Status => reply matches LeaseReply::Status { current: None, left_s: 0 },
    }
}

/// A lease lasts as long as was asked for, between five seconds and an hour:
/// after a grant at time `now`, it is in force at exactly the times before
/// `now` and that many seconds, whatever is asked then.
pub proof fn a_lease_lasts_as_long_as_asked(
    first: &mut LeaseServer,
    holder: String,
    ttl_s: u32,
    now: u64,
    granted: LeaseReply,
    then: &mut LeaseServer,
    q: LeaseRequest,
    t: u64,
    reply: LeaseReply,
    secs: nat,
)
    requires
        call_ensures(
            LeaseServer::handle,
            (first, LeaseRequest::Acquire { holder, ttl_s }, now),
            granted,
        ),
        granted is Granted,
        *old(then) == *final(first),
        call_ensures(LeaseServer::handle, (then, q, t), reply),
        now <= t,
        is_granted_for(secs, ttl_s),
    ensures
        t < now + secs * 1_000_000_000 ==> answers_held(
            q,
            reply,
            granted->Granted_id,
            holder@,
            now as nat + secs * 1_000_000_000,
            t,
        ),
        t >= now + secs * 1_000_000_000 ==> answers_free(q, reply, granted->Granted_id),
{
    assert(granted@ is Granted);
    assert(granted@->Granted_id == granted->Granted_id);
}

/// The lease that was granted is seen to be held at exactly the same times.
pub proof fn the_holder_is_seen_as_long_as_asked(
    first: &mut LeaseServer,
    holder: String,
    ttl_s: u32,
    now: u64,
    granted: LeaseReply,
    then: LeaseServer,
    t: u64,
    seen: Option<String>,
    secs: nat,
)
    requires
        call_ensures(
            LeaseServer::handle,
            (first, LeaseRequest::Acquire { holder, ttl_s }, now),
            granted,
        ),
        granted is Granted,
        then == *final(first),
        call_ensures(LeaseServer::holder, (&then, t), seen),
        now <= t,
        is_granted_for(secs, ttl_s),
    ensures
        t < now + secs * 1_000_000_000 ==> (seen matches Some(h) && h@ == holder@),
        t >= now + secs * 1_000_000_000 ==> seen is None,
{
    assert(granted@ is Granted);
}

/// A renewal restarts the time to live that was granted, in full: after a
/// grant and a renewal in time at `renewed_at`, the lease is in force at
/// exactly the times before that and as many seconds.
pub proof fn a_renewal_lasts_as_long_as_asked(
    first: &mut LeaseServer,
    holder: String,
    ttl_s: u32,
    now: u64,
    granted: LeaseReply,
    renewing: &mut LeaseServer,
    renewed_at: u64,
    acked: LeaseReply,
    then: &mut LeaseServer,
    q: LeaseRequest,
    t: u64,
    reply: LeaseReply,
    secs: nat,
)
    requires
        call_ensures(
            LeaseServer::handle,
            (first, LeaseRequest::Acquire { holder, ttl_s }, now),
            granted,
        ),
        granted is Granted,
        *old(renewing) == *final(first),
        call_ensures(
            LeaseServer::handle,
            (renewing, LeaseRequest::Renew { id: granted->Granted_id }, renewed_at),
            acked,
        ),
        *old(then) == *final(renewing),
        call_ensures(LeaseServer::handle, (then, q, t), reply),
        now <= renewed_at <= t,
        is_granted_for(secs, ttl_s),
        renewed_at < now + secs * 1_000_000_000,
    ensures
        acked is Acked,
        t < renewed_at + secs * 1_000_000_000 ==> answers_held(
            q,
            reply,
            granted->Granted_id,
            holder@,
            renewed_at as nat + secs * 1_000_000_000,
            t,
        ),
        t >= renewed_at + secs * 1_000_000_000 ==> answers_free(q, reply, granted->Granted_id),
{
    assert(granted@ is Granted);
    assert(granted@->Granted_id == granted->Granted_id);
}

/// A release by the holder frees the rig at once and for good: whatever is
/// asked from then on, it is answered by a free rig.
pub proof fn a_release_frees_the_rig(
    first: &mut LeaseServer,
    holder: String,
    ttl_s: u32,
    now: u64,
    granted: LeaseReply,
    releasing: &mut LeaseServer,
    released_at: u64,
    acked: LeaseReply,
    then: &mut LeaseServer,
    q: LeaseRequest,
    t: u64,
    reply: LeaseReply,
)
    requires
        call_ensures(
            LeaseServer::handle,
            (first, LeaseRequest::Acquire { holder, ttl_s }, now),
            granted,
        ),
        granted is Granted,
        *old(releasing) == *final(first),
        call_ensures(
            LeaseServer::handle,
            (releasing, LeaseRequest::Release { id: granted->Granted_id }, released_at),
            acked,
        ),
        *old(then) == *final(releasing),
        call_ensures(LeaseServer::handle, (then, q, t), reply),
    ensures
        acked is Acked,
        answers_free(q, reply, granted->Granted_id),
{
    assert(granted@ is Granted);
    assert(granted@->Granted_id == granted->Granted_id);
}

/// A fresh server grants the rig to whoever asks first, under the id 1.
pub proof fn a_fresh_server_grants(
    fresh: LeaseServer,
    first: &mut LeaseServer,
    holder: String,
    ttl_s: u32,
    now: u64,
    reply: LeaseReply,
)
    requires
        call_ensures(LeaseServer::new, (), fresh),
        *old(first) == fresh,
        call_ensures(
            LeaseServer::handle,
            (first, LeaseRequest::Acquire { holder, ttl_s }, now),
            reply,
        ),
    ensures
        reply matches LeaseReply::Granted { id } && id == 1,
{
    assert(reply@ is Granted);
}

/// Nobody but the holder moves the lease: a contender that is turned away, a
/// stale renewal, a look at the lease, and a release of any other id leave
/// every later answer as it would have been without them.
pub proof fn only_the_holder_moves_the_lease(
    asked: &mut LeaseServer,
    q: LeaseRequest,
    now: u64,
    reply: LeaseReply,
    with: &mut LeaseServer,
    without: &mut LeaseServer,
    later: LeaseRequest,
    t: u64,
    after: LeaseReply,
    instead: LeaseReply,
)
    requires
        call_ensures(LeaseServer::handle, (asked, q, now), reply),
        reply is Busy || reply is Gone || reply is Status || (q matches LeaseRequest::Release { id }
            && (old(asked)@.held matches Some(lease) ==> lease.id != id)),
        now <= t,
        *old(with) == *final(asked),
        *old(without) == *old(asked),
        call_ensures(LeaseServer::handle, (with, later, t), after),
        call_ensures(LeaseServer::handle, (without, later, t), instead),
    ensures
        after@ == instead@,
{
    assert(reply is Busy ==> reply@ is Busy);
    assert(reply is Gone ==> reply@ is Gone);
    assert(reply is Status ==> reply@ is Status);
}

/// A renewing holder is kept for the time it asked for, however often it
/// renews: after a grant, and whatever came in since then in time, the rig is
/// busy at exactly the times before the last renewal and that many seconds.
pub proof fn renewals_keep_the_time_asked_for(
    slot: Slot,
    holder: Seq<char>,
    other: Seq<char>,
    ttl_s: u32,
    other_s: u32,
    granted_at: u64,
    run: Seq<Arrival>,
    t: u64,
    secs: nat,
)
    requires
        slot.answer(Asked::Acquire { holder, ttl_s }, granted_at) is Granted,
        is_granted_for(secs, ttl_s),
        forall|i: int|
            0 <= i < run.len() ==> (#[trigger] run[i]).now < last_renewal(
                run,
                slot.next_id,
                granted_at,
                i,
            ) + secs * 1_000_000_000,
        forall|i: int|
            0 <= i < run.len() ==> (#[trigger] run[i]).q != (Asked::Release { id: slot.next_id }),
        last_renewal(run, slot.next_id, granted_at, run.len() as int) <= t,
    ensures
        ({
            let granted = slot.after(Asked::Acquire { holder, ttl_s }, granted_at);
            let end = after_run(granted, run, run.len() as int);
            let last = last_renewal(run, slot.next_id, granted_at, run.len() as int);
            let reply = end.answer(Asked::Acquire { holder: other, ttl_s: other_s }, t);
            &&& t < last + secs * 1_000_000_000 ==> (reply matches Answered::Busy { holder: h, .. }
                && h == holder)
            &&& t >= last + secs * 1_000_000_000 ==> reply is Granted
        }),
{
    let granted = slot.after(Asked::Acquire { holder, ttl_s }, granted_at);
    let lease = granted.held->0;
    assert(lease.ttl == secs * 1_000_000_000);
    lemma_kept(granted, lease, granted_at, run, run.len() as int);
}

/// Grants are counted: the id granted is that of the first grant and the
/// number of grants since, until ids run out.
pub proof fn ids_count_the_grants(slot: Slot, run: Seq<Arrival>, i: int)
    requires
        ids_suffice(slot, run),
        0 <= i < run.len(),
        answer_in_run(slot, run, i) is Granted,
    ensures
        answer_in_run(slot, run, i)->Granted_id == slot.next_id + grants(slot, run, i),
{
    lemma_next_id(slot, run, i);
}

/// A request sent over the wire is answered like one made in person: the
/// frame of the request goes in, and the frame that comes out reads as the
/// reply, whatever follows it.
pub proof fn a_frame_is_answered_like_a_request(
    q: LeaseRequest,
    sent: Vec<u8>,
    frame: &[u8],
    wired: &mut LeaseServer,
    spoken: &mut LeaseServer,
    now: u64,
    served: Result<Vec<u8>, String>,
    reply: LeaseReply,
    back: &[u8],
    read: Result<LeaseReply, String>,
)
    requires
        q@.storable(),
        reply@.storable(),
        call_ensures(LeaseRequest::encode, (&q,), sent),
        frame@ == sent@,
        *old(wired) == *old(spoken),
        call_ensures(LeaseServer::serve_conn, (wired, frame, now), served),
        call_ensures(LeaseServer::handle, (spoken, q, now), reply),
        served matches Ok(b) ==> back@ == b@,
        call_ensures(LeaseReply::decode, (back,), read),
    ensures
        served is Ok,
        read matches Ok(got) && got@ == reply@,
        final(wired)@ == final(spoken)@,
{
    request_reads_back(q@);
    reply_reads_back(reply@);
}

/// A frame that is no request changes nothing, and ends the connection.
pub proof fn a_garbled_frame_changes_nothing(
    server: &mut LeaseServer,
    frame: &[u8],
    now: u64,
    served: Result<Vec<u8>, String>,
)
    requires
        call_ensures(LeaseServer::serve_conn, (server, frame, now), served),
        served is Err,
    ensures
        *final(server) == *old(server),
{
}

/// Each kind of request is told by its first byte, from 0 in the order
/// acquire, renew, release, status; ids and times follow as numbers, names as
/// text, and nothing else does.
pub proof fn requests_on_the_wire(q: LeaseRequest, r: Vec<u8>)
    requires
        call_ensures(LeaseRequest::encode, (&q,), r),
        q@.storable(),
    ensures
        r@.len() > 0,
        match q {
            LeaseRequest::Acquire { holder, ttl_s } => r@[0] == 0 && (take_text_of(r@.skip(1))
                matches Some((name, rest)) && name == holder@ && take_u32_of(rest) == Some(
                (ttl_s as nat, Seq::<u8>::empty()),
            )),
            LeaseRequest::Renew { id } => r@[0] == 1 && take_u64_of(r@.skip(1)) == Some(
                (id as nat, Seq::<u8>::empty()),
            ),
            LeaseRequest::Release { id } => r@[0] == 2 && take_u64_of(r@.skip(1)) == Some(
                (id as nat, Seq::<u8>::empty()),
            ),
            LeaseRequest::Status => r@ == seq![3u8],
        },
{
    let none = Seq::<u8>::empty();
    match q {
        LeaseRequest::Acquire { holder, ttl_s } => {
            let end = varint(ttl_s as nat);
            assert(r@.skip(1) =~= text_bytes(holder@) + end);
            text_reads_back(holder@, end);
            assert(end + none =~= end);
            u32_reads_back(ttl_s, none);
        },
        LeaseRequest::Renew { id } => {
            assert(r@.skip(1) =~= varint(id as nat) + none);
            u64_reads_back(id, none);
        },
        LeaseRequest::Release { id } => {
            assert(r@.skip(1) =~= varint(id as nat) + none);
            u64_reads_back(id, none);
        },
        LeaseRequest::Status => {},
    }
}

/// Each kind of reply is told by its first byte, from 0 in the order granted,
/// busy, acknowledged, gone, status; ids and times follow as numbers, names
/// as text, and nothing else does.
pub proof fn replies_on_the_wire(a: LeaseReply, r: Vec<u8>)
    requires
        call_ensures(LeaseReply::encode, (&a,), r),
        a@.storable(),
    ensures
        r@.len() > 0,
        match a {
            LeaseReply::Granted { id } => r@[0] == 0 && take_u64_of(r@.skip(1)) == Some(
                (id as nat, Seq::<u8>::empty()),
            ),
            LeaseReply::Busy { holder, expires_in_s } => r@[0] == 1 && (take_text_of(r@.skip(1))
                matches Some((name, rest)) && name == holder@ && take_u32_of(rest) == Some(
                (expires_in_s as nat, Seq::<u8>::empty()),
            )),
            LeaseReply::Acked => r@ == seq![2u8],
            LeaseReply::Gone => r@ == seq![3u8],
            LeaseReply::Status { current, left_s } => r@[0] == 4 && (take_option_of(r@.skip(1))
                matches Some((name, rest)) && name == option_view(current) && take_u32_of(rest)
                == Some((left_s as nat, Seq::<u8>::empty()))),
        },
{
    let none = Seq::<u8>::empty();
    match a {
        LeaseReply::Granted { id } => {
            assert(r@.skip(1) =~= varint(id as nat) + none);
            u64_reads_back(id, none);
        },
        LeaseReply::Busy { holder, expires_in_s } => {
            let end = varint(expires_in_s as nat);
            assert(r@.skip(1) =~= text_bytes(holder@) + end);
            text_reads_back(holder@, end);
            assert(end + none =~= end);
            u32_reads_back(expires_in_s, none);
        },
        LeaseReply::Status { current, left_s } => {
            let end = varint(left_s as nat);
            assert(r@.skip(1) =~= option_bytes(option_view(current)) + end);
            option_reads_back(option_view(current), end);
            assert(end + none =~= end);
            u32_reads_back(left_s, none);
        },
        _ => {},
    }
}

/// A first byte that stands for no kind of message, below 128, is refused.
pub proof fn unknown_messages_are_refused(
    frame: &[u8],
    q: Result<LeaseRequest, String>,
    a: Result<LeaseReply, String>,
)
    requires
        call_ensures(LeaseRequest::decode, (frame,), q),
        call_ensures(LeaseReply::decode, (frame,), a),
        frame@.len() > 0 ==> frame@[0] < 128,
    ensures
        frame@.len() == 0 || frame@[0] > 3 ==> q is Err,
        frame@.len() == 0 || frame@[0] > 4 ==> a is Err,
{
}

/// Whatever state a server is in, a look at it and its answer to a status
/// request agree on who holds the lease, and on whether anyone does.
pub proof fn a_look_agrees_with_the_status(
    server: LeaseServer,
    now: u64,
    seen: Option<String>,
    asked: &mut LeaseServer,
    reply: LeaseReply,
)
    requires
        call_ensures(LeaseServer::holder, (&server, now), seen),
        *old(asked) == server,
        call_ensures(LeaseServer::handle, (asked, LeaseRequest::Status, now), reply),
    ensures
        reply matches LeaseReply::Status { current, .. } && (current is Some == seen is Some) && (
        seen is Some ==> current->0@ == seen->0@),
{
    assert(reply@ is Status);
}

/// A server made by default is a fresh one.
pub proof fn a_default_server_is_fresh(by_default: LeaseServer, fresh: LeaseServer)
    requires
        call_ensures(<LeaseServer as Default>::default, (), by_default),
        call_ensures(LeaseServer::new, (), fresh),
    ensures
        by_default@ == fresh@,
        by_default@.held is None,
{
}

/// Whatever a frame holds, it is read by the number at its start: the kind of
/// request that it stands for, with the numbers and the text that follow, or
/// else what is wrong with these.
pub proof fn any_request_frame_is_read(
    frame: &[u8],
    tag: nat,
    rest: Seq<u8>,
    r: Result<LeaseRequest, String>,
)
    requires
        call_ensures(LeaseRequest::decode, (frame,), r),
        take_u32_of(frame@) is Some ==> take_u32_of(frame@) == Some((tag, rest)),
    ensures
        take_u32_of(frame@) is None ==> (r matches Err(e) && e@ == u32_fault(frame@)),
        take_u32_of(frame@) is Some ==> {
            &&& tag == 0 ==> match take_text_of(rest) {
                None => r matches Err(e) && e@ == text_fault(rest),
                Some((name, after)) => match take_u32_of(after) {
                    None => r matches Err(e) && e@ == u32_fault(after),
                    Some((secs, _)) => r matches Ok(LeaseRequest::Acquire { holder, ttl_s })
                        && holder@ == name && ttl_s == secs as u32,
                },
            }
            &&& tag == 1 || tag == 2 ==> match take_u64_of(rest) {
                None => r matches Err(e) && e@ == u64_fault(rest),
                Some((n, _)) => if tag == 1 {
                    r matches Ok(LeaseRequest::Renew { id }) && id == n as u64
                } else {
                    r matches Ok(LeaseRequest::Release { id }) && id == n as u64
                },
            }
            &&& tag == 3 ==> (r matches Ok(LeaseRequest::Status))
            &&& tag > 3 ==> (r matches Err(e) && e@ == "Serde Deserialization Error"@)
        },
{
    if let Ok(q) = r {
        assert(Asked::parse(frame@) == Some(q@));
    }
}

/// Whatever a frame holds, it is read by the number at its start: the kind of
/// reply that it stands for, with the numbers and the text that follow, or
/// else what is wrong with these.
pub proof fn any_reply_frame_is_read(
    frame: &[u8],
    tag: nat,
    rest: Seq<u8>,
    r: Result<LeaseReply, String>,
)
    requires
        call_ensures(LeaseReply::decode, (frame,), r),
        take_u32_of(frame@) is Some ==> take_u32_of(frame@) == Some((tag, rest)),
    ensures
        take_u32_of(frame@) is None ==> (r matches Err(e) && e@ == u32_fault(frame@)),
        take_u32_of(frame@) is Some ==> {
            &&& tag == 0 ==> match take_u64_of(rest) {
                None => r matches Err(e) && e@ == u64_fault(rest),
                Some((n, _)) => r matches Ok(LeaseReply::Granted { id }) && id == n as u64,
            }
            &&& tag == 1 ==> match take_text_of(rest) {
                None => r matches Err(e) && e@ == text_fault(rest),
                Some((name, after)) => match take_u32_of(after) {
                    None => r matches Err(e) && e@ == u32_fault(after),
                    Some((secs, _)) => r matches Ok(LeaseReply::Busy { holder, expires_in_s })
                        && holder@ == name && expires_in_s == secs as u32,
                },
            }
            &&& tag == 2 ==> (r matches Ok(LeaseReply::Acked))
            &&& tag == 3 ==> (r matches Ok(LeaseReply::Gone))
            &&& tag == 4 ==> match take_option_of(rest) {
                None => r matches Err(e) && e@ == option_fault(rest),
                Some((name, after)) => match take_u32_of(after) {
                    None => r matches Err(e) && e@ == u32_fault(after),
                    Some((secs, _)) => r matches Ok(LeaseReply::Status { current, left_s })
                        && option_view(current) == name && left_s == secs as u32,
                },
            }
            &&& tag > 4 ==> (r matches Err(e) && e@ == "Serde Deserialization Error"@)
        },
{
    if let Ok(q) = r {
        assert(Answered::parse(frame@) == Some(q@));
    }
}

} // verus!
