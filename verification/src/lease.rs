//! Network-backed rig lease: exclusive rig access arbitrated by the rig
//! daemon, for rigs whose runners do not share a filesystem.
//!
//! One holder at a time. A holder that stops renewing (crashed runner, dead
//! job) loses the lease after its time to live, and the rig frees itself.
//!
//! Times are nanoseconds of a monotonic clock that the caller reads.

use crate::wire::{
    no_variant, option_bytes, option_fault, option_reads_back, option_view, put_option, put_text,
    put_u32, put_u64, take_option, take_option_of, take_text, take_text_of, take_u32, take_u32_of,
    take_u64, take_u64_of, text_bytes, text_fault, text_reads_back, u32_fault, u32_reads_back,
    u64_fault, u64_reads_back, unknown_variant, varint,
};
use vstd::prelude::*;
use vstd::utf8::*;

verus! {

/// Default time to live, in seconds.
pub const DEFAULT_TTL_S: u32 = 60;

/// Nanoseconds in a second.
pub const SECOND: u64 = 1_000_000_000;

/// The longest time to live that is granted.
pub const MAX_TTL: u64 = 3_600_000_000_000;

/// What a client asks of the lease server.
#[derive(Debug, Clone)]
pub enum LeaseRequest {
    Acquire { holder: String, ttl_s: u32 },
    Renew { id: u64 },
    Release { id: u64 },
    /// Who holds the lease, without contending for it.
    Status,
}

/// What the lease server answers.
#[derive(Debug, Clone)]
pub enum LeaseReply {
    Granted { id: u64 },
    /// Someone else holds the lease; retry after backoff.
    Busy { holder: String, expires_in_s: u32 },
    /// Renew/Release acknowledged.
    Acked,
    /// The lease id is not current (expired and possibly re-granted).
    Gone,
    /// Who holds the lease, if anyone, and for how long unless it is renewed.
    Status { current: Option<String>, left_s: u32 },
}

/// The contents of a [`LeaseRequest`].
pub enum Asked {
    Acquire { holder: Seq<char>, ttl_s: u32 },
    Renew { id: u64 },
    Release { id: u64 },
    Status,
}

/// The contents of a [`LeaseReply`].
pub enum Answered {
    Granted { id: u64 },
    Busy { holder: Seq<char>, expires_in_s: u32 },
    Acked,
    Gone,
    Status { current: Option<Seq<char>>, left_s: u32 },
}

impl View for LeaseRequest {
    type V = Asked;

    open spec fn view(&self) -> Asked {
        match *self {
            LeaseRequest::Acquire { holder, ttl_s } => Asked::Acquire { holder: holder@, ttl_s },
            LeaseRequest::Renew { id } => Asked::Renew { id },
            LeaseRequest::Release { id } => Asked::Release { id },
            LeaseRequest::Status => Asked::Status,
        }
    }
}

impl View for LeaseReply {
    type V = Answered;

    open spec fn view(&self) -> Answered {
        match *self {
            LeaseReply::Granted { id } => Answered::Granted { id },
            LeaseReply::Busy { holder, expires_in_s } => Answered::Busy {
                holder: holder@,
                expires_in_s,
            },
            LeaseReply::Acked => Answered::Acked,
            LeaseReply::Gone => Answered::Gone,
            LeaseReply::Status { current, left_s } => Answered::Status {
                current: option_view(current),
                left_s,
            },
        }
    }
}

impl Asked {
    /// The request as it stands in its frame.
    pub open spec fn bytes(self) -> Seq<u8> {
        match self {
            Asked::Acquire { holder, ttl_s } => varint(0) + text_bytes(holder) + varint(
                ttl_s as nat,
            ),
            Asked::Renew { id } => varint(1) + varint(id as nat),
            Asked::Release { id } => varint(2) + varint(id as nat),
            Asked::Status => varint(3),
        }
    }

    /// The request that a frame spells; bytes after it are ignored.
    pub open spec fn parse(b: Seq<u8>) -> Option<Asked> {
        match take_u32_of(b) {
            None => None,
            Some((tag, rest)) => if tag == 0 {
                match take_text_of(rest) {
                    None => None,
                    Some((holder, rest)) => match take_u32_of(rest) {
                        None => None,
                        Some((ttl_s, _)) => Some(Asked::Acquire { holder, ttl_s: ttl_s as u32 }),
                    },
                }
            } else if tag == 1 {
                match take_u64_of(rest) {
                    None => None,
                    Some((id, _)) => Some(Asked::Renew { id: id as u64 }),
                }
            } else if tag == 2 {
                match take_u64_of(rest) {
                    None => None,
                    Some((id, _)) => Some(Asked::Release { id: id as u64 }),
                }
            } else if tag == 3 {
                Some(Asked::Status)
            } else {
                None
            },
        }
    }

    /// What is reported of a frame that spells no request.
    pub open spec fn fault(b: Seq<u8>) -> Seq<char> {
        match take_u32_of(b) {
            None => u32_fault(b),
            Some((tag, rest)) => if tag == 0 {
                match take_text_of(rest) {
                    None => text_fault(rest),
                    Some((_, rest)) => u32_fault(rest),
                }
            } else if tag == 1 || tag == 2 {
                u64_fault(rest)
            } else {
                no_variant()
            },
        }
    }

    /// Any text in the request is no longer than memory can hold.
    pub open spec fn storable(self) -> bool {
        self matches Asked::Acquire { holder, .. } ==> encode_utf8(holder).len() <= usize::MAX
    }
}

impl Answered {
    /// The reply as it stands in its frame.
    pub open spec fn bytes(self) -> Seq<u8> {
        match self {
            Answered::Granted { id } => varint(0) + varint(id as nat),
            Answered::Busy { holder, expires_in_s } => varint(1) + text_bytes(holder) + varint(
                expires_in_s as nat,
            ),
            Answered::Acked => varint(2),
            Answered::Gone => varint(3),
            Answered::Status { current, left_s } => varint(4) + option_bytes(current) + varint(
                left_s as nat,
            ),
        }
    }

    /// The reply that a frame spells; bytes after it are ignored.
    pub open spec fn parse(b: Seq<u8>) -> Option<Answered> {
        match take_u32_of(b) {
            None => None,
            Some((tag, rest)) => if tag == 0 {
                match take_u64_of(rest) {
                    None => None,
                    Some((id, _)) => Some(Answered::Granted { id: id as u64 }),
                }
            } else if tag == 1 {
                match take_text_of(rest) {
                    None => None,
                    Some((holder, rest)) => match take_u32_of(rest) {
                        None => None,
                        Some((s, _)) => Some(Answered::Busy { holder, expires_in_s: s as u32 }),
                    },
                }
            } else if tag == 2 {
                Some(Answered::Acked)
            } else if tag == 3 {
                Some(Answered::Gone)
            } else if tag == 4 {
                match take_option_of(rest) {
                    None => None,
                    Some((current, rest)) => match take_u32_of(rest) {
                        None => None,
                        Some((s, _)) => Some(Answered::Status { current, left_s: s as u32 }),
                    },
                }
            } else {
                None
            },
        }
    }

    /// What is reported of a frame that spells no reply.
    pub open spec fn fault(b: Seq<u8>) -> Seq<char> {
        match take_u32_of(b) {
            None => u32_fault(b),
            Some((tag, rest)) => if tag == 0 {
                u64_fault(rest)
            } else if tag == 1 {
                match take_text_of(rest) {
                    None => text_fault(rest),
                    Some((_, rest)) => u32_fault(rest),
                }
            } else if tag == 4 {
                match take_option_of(rest) {
                    None => option_fault(rest),
                    Some((_, rest)) => u32_fault(rest),
                }
            } else {
                no_variant()
            },
        }
    }

    /// Any text in the reply is no longer than memory can hold.
    pub open spec fn storable(self) -> bool {
        &&& self matches Answered::Busy { holder, .. } ==> encode_utf8(holder).len() <= usize::MAX
        &&& self matches Answered::Status { current: Some(holder), .. } ==> encode_utf8(
            holder,
        ).len() <= usize::MAX
    }
}

impl LeaseRequest {
    /// Encodes the request.
    pub fn encode(&self) -> (r: Vec<u8>)
        ensures
            r@ == self@.bytes(),
    {
        match self {
            LeaseRequest::Acquire { holder, ttl_s } => {
                let mut out = put_u32(0).unwrap();
                out.append(&mut put_text(holder.as_str()).unwrap());
                out.append(&mut put_u32(*ttl_s).unwrap());
                out
            },
            LeaseRequest::Renew { id } => {
                let mut out = put_u32(1).unwrap();
                out.append(&mut put_u64(*id).unwrap());
                out
            },
            LeaseRequest::Release { id } => {
                let mut out = put_u32(2).unwrap();
                out.append(&mut put_u64(*id).unwrap());
                out
            },
            LeaseRequest::Status => put_u32(3).unwrap(),
        }
    }

    /// Decodes a frame, or says what is wrong with it.
    pub fn decode(b: &[u8]) -> (r: Result<LeaseRequest, String>)
        ensures
            match Asked::parse(b@) {
                Some(v) => r matches Ok(q) && q@ == v,
                None => r matches Err(e) && e@ == Asked::fault(b@),
            },
    {
        let (tag, rest) = match take_u32(b) {
            Ok(p) => p,
            Err(e) => return Err(e),
        };
        match tag {
            0 => match take_text(rest) {
                Err(e) => Err(e),
                Ok((holder, rest)) => match take_u32(rest) {
                    Err(e) => Err(e),
                    Ok((ttl_s, _)) => Ok(LeaseRequest::Acquire { holder, ttl_s }),
                },
            },
            1 => match take_u64(rest) {
                Err(e) => Err(e),
                Ok((id, _)) => Ok(LeaseRequest::Renew { id }),
            },
            2 => match take_u64(rest) {
                Err(e) => Err(e),
                Ok((id, _)) => Ok(LeaseRequest::Release { id }),
            },
            3 => Ok(LeaseRequest::Status),
            _ => Err(unknown_variant()),
        }
    }
}

impl LeaseReply {
    /// Encodes the reply.
    pub fn encode(&self) -> (r: Vec<u8>)
        ensures
            r@ == self@.bytes(),
    {
        match self {
            LeaseReply::Granted { id } => {
                let mut out = put_u32(0).unwrap();
                out.append(&mut put_u64(*id).unwrap());
                out
            },
            LeaseReply::Busy { holder, expires_in_s } => {
                let mut out = put_u32(1).unwrap();
                out.append(&mut put_text(holder.as_str()).unwrap());
                out.append(&mut put_u32(*expires_in_s).unwrap());
                out
            },
            LeaseReply::Acked => put_u32(2).unwrap(),
            LeaseReply::Gone => put_u32(3).unwrap(),
            LeaseReply::Status { current, left_s } => {
                let mut out = put_u32(4).unwrap();
                out.append(&mut put_option(current).unwrap());
                out.append(&mut put_u32(*left_s).unwrap());
                out
            },
        }
    }

    /// Decodes a frame, or says what is wrong with it.
    pub fn decode(b: &[u8]) -> (r: Result<LeaseReply, String>)
        ensures
            match Answered::parse(b@) {
                Some(v) => r matches Ok(q) && q@ == v,
                None => r matches Err(e) && e@ == Answered::fault(b@),
            },
    {
        let (tag, rest) = match take_u32(b) {
            Ok(p) => p,
            Err(e) => return Err(e),
        };
        match tag {
            0 => match take_u64(rest) {
                Err(e) => Err(e),
                Ok((id, _)) => Ok(LeaseReply::Granted { id }),
            },
            1 => match take_text(rest) {
                Err(e) => Err(e),
                Ok((holder, rest)) => match take_u32(rest) {
                    Err(e) => Err(e),
                    Ok((expires_in_s, _)) => Ok(LeaseReply::Busy { holder, expires_in_s }),
                },
            },
            2 => Ok(LeaseReply::Acked),
            3 => Ok(LeaseReply::Gone),
            4 => match take_option(rest) {
                Err(e) => Err(e),
                Ok((current, rest)) => match take_u32(rest) {
                    Err(e) => Err(e),
                    Ok((left_s, _)) => Ok(LeaseReply::Status { current, left_s }),
                },
            },
            _ => Err(unknown_variant()),
        }
    }
}

/// A request read from the wire is the request that was written to it.
pub proof fn request_reads_back(q: Asked)
    requires
        q.storable(),
    ensures
        Asked::parse(q.bytes()) == Some(q),
{
    let none = Seq::<u8>::empty();
    match q {
        Asked::Acquire { holder, ttl_s } => {
            let end = varint(ttl_s as nat);
            assert(q.bytes() == varint(0) + (text_bytes(holder) + end));
            u32_reads_back(0, text_bytes(holder) + end);
            text_reads_back(holder, end);
            assert(end + none == end);
            u32_reads_back(ttl_s, none);
        },
        Asked::Renew { id } => {
            u32_reads_back(1, varint(id as nat));
            assert(varint(id as nat) + none == varint(id as nat));
            u64_reads_back(id, none);
        },
        Asked::Release { id } => {
            u32_reads_back(2, varint(id as nat));
            assert(varint(id as nat) + none == varint(id as nat));
            u64_reads_back(id, none);
        },
        Asked::Status => {
            assert(varint(3) + none == varint(3));
            u32_reads_back(3, none);
        },
    }
}

/// A reply read from the wire is the reply that was written to it.
pub proof fn reply_reads_back(a: Answered)
    requires
        a.storable(),
    ensures
        Answered::parse(a.bytes()) == Some(a),
{
    let none = Seq::<u8>::empty();
    match a {
        Answered::Granted { id } => {
            u32_reads_back(0, varint(id as nat));
            assert(varint(id as nat) + none == varint(id as nat));
            u64_reads_back(id, none);
        },
        Answered::Busy { holder, expires_in_s } => {
            let end = varint(expires_in_s as nat);
            assert(a.bytes() == varint(1) + (text_bytes(holder) + end));
            u32_reads_back(1, text_bytes(holder) + end);
            text_reads_back(holder, end);
            assert(end + none == end);
            u32_reads_back(expires_in_s, none);
        },
        Answered::Acked => {
            assert(varint(2) + none == varint(2));
            u32_reads_back(2, none);
        },
        Answered::Gone => {
            assert(varint(3) + none == varint(3));
            u32_reads_back(3, none);
        },
        Answered::Status { current, left_s } => {
            let end = varint(left_s as nat);
            assert(a.bytes() == varint(4) + (option_bytes(current) + end));
            u32_reads_back(4, option_bytes(current) + end);
            option_reads_back(current, end);
            assert(end + none == end);
            u32_reads_back(left_s, none);
        },
    }
}

/// A lease as the server keeps it: who holds it, until when, and by how much
/// a renewal extends it.
pub struct Lease {
    pub id: u64,
    pub holder: Seq<char>,
    pub expires_at: nat,
    pub ttl: u64,
}

/// The state of a lease server: the one slot, and the id to grant next.
pub struct Slot {
    pub held: Option<Lease>,
    pub next_id: u64,
}

/// The time to live granted for `ttl_s` seconds asked for: at least five
/// seconds, at most an hour.
pub open spec fn granted_ttl(ttl_s: u32) -> u64 {
    if ttl_s < 5 {
        (5 * SECOND) as u64
    } else if ttl_s > 3600 {
        MAX_TTL
    } else {
        (ttl_s * SECOND) as u64
    }
}

/// The number after `n`, back to zero after the last.
pub open spec fn next_number(n: u64) -> u64 {
    if n == u64::MAX {
        0
    } else {
        (n + 1) as u64
    }
}

impl Slot {
    /// The lease in force at time `now`.
    pub open spec fn current(self, now: u64) -> Option<Lease> {
        match self.held {
            Some(lease) => if lease.expires_at > now {
                Some(lease)
            } else {
                None
            },
            None => None,
        }
    }

    /// Every lease held was granted for between five seconds and an hour.
    pub open spec fn wf(self) -> bool {
        self.held matches Some(lease) ==> 5 * SECOND <= lease.ttl <= MAX_TTL
    }

    /// The server's answer to `q` at time `now`.
    pub open spec fn answer(self, q: Asked, now: u64) -> Answered {
        match q {
            Asked::Acquire { .. } => match self.current(now) {
                Some(lease) => Answered::Busy {
                    holder: lease.holder,
                    expires_in_s: ((lease.expires_at - now) / SECOND as int) as u32,
                },
                None => Answered::Granted { id: self.next_id },
            },
            Asked::Renew { id } => match self.current(now) {
                Some(lease) => if lease.id == id {
                    Answered::Acked
                } else {
                    Answered::Gone
                },
                None => Answered::Gone,
            },
            Asked::Release { .. } => Answered::Acked,
            Asked::Status => match self.current(now) {
                Some(lease) => Answered::Status {
                    current: Some(lease.holder),
                    left_s: ((lease.expires_at - now) / SECOND as int) as u32,
                },
                None => Answered::Status { current: None, left_s: 0 },
            },
        }
    }

    /// The server's state after `q` at time `now`.
    pub open spec fn after(self, q: Asked, now: u64) -> Slot {
        match q {
            Asked::Acquire { holder, ttl_s } => match self.current(now) {
                Some(lease) => self,
                None => Slot {
                    held: Some(
                        Lease {
                            id: self.next_id,
                            holder,
                            expires_at: (now + granted_ttl(ttl_s)) as nat,
                            ttl: granted_ttl(ttl_s),
                        },
                    ),
                    next_id: next_number(self.next_id),
                },
            },
            Asked::Renew { id } => match self.current(now) {
                Some(lease) => if lease.id == id {
                    Slot {
                        held: Some(Lease { expires_at: (now + lease.ttl) as nat, ..lease }),
                        ..self
                    }
                } else {
                    self
                },
                None => Slot { held: None, ..self },
            },
            Asked::Release { id } => match self.current(now) {
                Some(lease) => if lease.id == id {
                    Slot { held: None, ..self }
                } else {
                    self
                },
                None => Slot { held: None, ..self },
            },
            Asked::Status => Slot { held: self.current(now), ..self },
        }
    }
}

struct Held {
    id: u64,
    holder: String,
    /// Wider than the clock, so that a lease may end after the clock does.
    expires_at: u128,
    ttl: u64,
}

/// Single-slot lease state for a rig daemon. Expiry is evaluated lazily on
/// each request; a holder that stops renewing is displaced by the next
/// Acquire after its time to live has passed.
pub struct LeaseServer {
    held: Option<Held>,
    next_id: u64,
}

impl View for LeaseServer {
    type V = Slot;

    closed spec fn view(&self) -> Slot {
        Slot {
            held: match self.held {
                Some(h) => Some(
                    Lease {
                        id: h.id,
                        holder: h.holder@,
                        expires_at: h.expires_at as nat,
                        ttl: h.ttl,
                    },
                ),
                None => None,
            },
            next_id: self.next_id,
        }
    }
}

impl Default for LeaseServer {
    fn default() -> (r: Self)
        ensures
            r@ == (Slot { held: None, next_id: 1 }),
    {
        LeaseServer::new()
    }
}

impl LeaseServer {
    #[verifier::type_invariant]
    spec fn inv(self) -> bool {
        self@.wf()
    }

    /// A server with the rig free.
    pub fn new() -> (r: Self)
        ensures
            r@ == (Slot { held: None, next_id: 1 }),
    {
        LeaseServer { held: None, next_id: 1 }
    }

    /// Who holds the lease at time `now`, if anyone.
    pub fn holder(&self, now: u64) -> (r: Option<String>)
        ensures
            match self@.current(now) {
                Some(lease) => r matches Some(h) && h@ == lease.holder,
                None => r is None,
            },
    {
        match &self.held {
            Some(h) => if h.expires_at > now as u128 {
                Some(h.holder.clone())
            } else {
                None
            },
            None => None,
        }
    }

    /// Answers one request that arrives at time `now`.
    pub fn handle(&mut self, req: LeaseRequest, now: u64) -> (r: LeaseReply)
        ensures
            r@ == old(self)@.answer(req@, now),
            final(self)@ == old(self)@.after(req@, now),
            final(self)@.wf(),
    {
        proof {
            use_type_invariant(&*self);
        }
        let expired = match &self.held {
            Some(h) => h.expires_at <= now as u128,
            None => false,
        };
        if expired {
            self.held = None;
        }
        match req {
            LeaseRequest::Acquire { holder, ttl_s } => {
                if let Some(h) = &self.held {
                    let left: u128 = (h.expires_at - now as u128) / SECOND as u128;
                    return LeaseReply::Busy {
                        holder: h.holder.clone(),
                        expires_in_s: #[verifier::truncate] (left as u32),
                    };
                }
                let id = self.next_id;
                let secs: u32 = if ttl_s < 5 {
                    5
                } else if ttl_s > 3600 {
                    3600
                } else {
                    ttl_s
                };
                let ttl: u64 = secs as u64 * SECOND;
                self.next_id = id.wrapping_add(1);
                self.held = Some(Held { id, holder, expires_at: now as u128 + ttl as u128, ttl });
                LeaseReply::Granted { id }
            },
            LeaseRequest::Renew { id } => {
                let renewed = match &self.held {
                    Some(h) => if h.id == id {
                        Some(
                            Held {
                                id,
                                holder: h.holder.clone(),
                                expires_at: now as u128 + h.ttl as u128,
                                ttl: h.ttl,
                            },
                        )
                    } else {
                        None
                    },
                    None => None,
                };
                if renewed.is_some() {
                    self.held = renewed;
                    LeaseReply::Acked
                } else {
                    LeaseReply::Gone
                }
            },
            LeaseRequest::Release { id } => {
                let ours = match &self.held {
                    Some(h) => h.id == id,
                    None => false,
                };
                if ours {
                    self.held = None;
                }
                LeaseReply::Acked
            },
            LeaseRequest::Status => match &self.held {
                Some(h) => {
                    let left: u128 = (h.expires_at - now as u128) / SECOND as u128;
                    LeaseReply::Status {
                        current: Some(h.holder.clone()),
                        left_s: #[verifier::truncate] (left as u32),
                    }
                },
                None => LeaseReply::Status { current: None, left_s: 0 },
            },
        }
    }

    /// Serves one frame of a lease connection: the frame to answer with, or
    /// what is wrong with the request, and the connection should end.
    pub fn serve_conn(&mut self, frame: &[u8], now: u64) -> (r: Result<Vec<u8>, String>)
        ensures
            match Asked::parse(frame@) {
                Some(q) => {
                    &&& r matches Ok(b) && b@ == old(self)@.answer(q, now).bytes()
                    &&& final(self)@ == old(self)@.after(q, now)
                },
                None => (r matches Err(e) && e@ == Asked::fault(frame@)) && *final(self) == *old(
                    self,
                ),
            },
    {
        match LeaseRequest::decode(frame) {
            Ok(req) => Ok(self.handle(req, now).encode()),
            Err(e) => Err(e),
        }
    }
}

} // verus!
