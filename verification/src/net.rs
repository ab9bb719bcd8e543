//! The opening handshake of a rig daemon connection.
//!
//! Every connection starts with a `Hello` frame that declares a role and
//! carries the shared token; the daemon answers with the rig's name or a
//! refusal, and only then does the stream belong to the role.

use crate::text::{dec, mentions, push_dec};
use crate::wire::{
    ended, no_variant, put_text, put_u32, put_u8, take_text, take_text_of, take_u32, take_u32_of,
    take_u8, text_bytes, text_fault, text_reads_back, u32_fault, u32_reads_back, unknown_variant,
    varint,
};
use vstd::prelude::*;
use vstd::string::*;
use vstd::utf8::*;

verus! {

/// Bumped on any breaking change to the handshake or framing.
pub const NET_VERSION: u8 = 0;

/// What a connection wants to be after the handshake.
#[derive(Debug, Clone, Copy, PartialEq, Eq, Structural)]
pub enum Role {
    Node,
    Lease,
}

/// The first message of a connection.
#[derive(Debug)]
pub struct Hello {
    pub version: u8,
    pub role: Role,
    pub token: String,
}

/// The daemon's answer to a [`Hello`].
#[derive(Debug)]
pub enum HelloReply {
    Welcome { rig_name: String },
    Denied,
}

/// Why a handshake did not succeed.
#[derive(Debug)]
pub enum HandshakeError {
    /// The peer's message is not one of the handshake, for this reason.
    Garbled(String),
    /// The daemon refused us.
    Refused,
    /// We refused the peer.
    Denied { version: u8, token_ok: bool },
}

/// Length-then-content comparison without early exit on content, so a wrong
/// token costs the same as a right one.
pub fn token_eq(a: &str, b: &str) -> (r: bool)
    ensures
        r == (a@ == b@),
{
    let x = a.as_bytes();
    let y = b.as_bytes();
    if x.len() != y.len() {
        return false;
    }
    let mut acc: u8 = 0;
    let mut i: usize = 0;
    while i < x.len()
        invariant
            x@.len() == y@.len(),
            i <= x@.len(),
            (acc == 0) == (forall|k: int| 0 <= k < i ==> x@[k] == y@[k]),
        decreases x.len() - i,
    {
        let p = x[i];
        let q = y[i];
        let before = acc;
        assert((before | (p ^ q)) == 0 <==> (before == 0 && p == q)) by (bit_vector);
        acc = acc | (p ^ q);
        i += 1;
    }
    proof {
        if acc == 0 {
            assert(x@ =~= y@);
            crate::text::lemma_utf8_injective(a@, b@);
        }
    }
    acc == 0
}

impl Role {
    /// The number that stands for the role on the wire.
    pub open spec fn tag(self) -> nat {
        match self {
            Role::Node => 0,
            Role::Lease => 1,
        }
    }
}

impl Hello {
    /// The message as it stands in its frame.
    pub open spec fn bytes(self) -> Seq<u8> {
        seq![self.version] + varint(self.role.tag()) + text_bytes(self.token@)
    }

    /// Encodes the message.
    pub fn encode(&self) -> (r: Vec<u8>)
        ensures
            r@ == self.bytes(),
    {
        let tag: u32 = match self.role {
            Role::Node => 0,
            Role::Lease => 1,
        };
        let mut out = put_u8(self.version).unwrap();
        out.append(&mut put_u32(tag).unwrap());
        out.append(&mut put_text(self.token.as_str()).unwrap());
        assert(out@ =~= self.bytes());
        out
    }

    /// The version, role and token that a frame spells; bytes after them are
    /// ignored.
    pub open spec fn parse(b: Seq<u8>) -> Option<(u8, Role, Seq<char>)> {
        if b.len() == 0 {
            None
        } else {
            match take_u32_of(b.skip(1)) {
                None => None,
                Some((tag, rest)) => if tag > 1 {
                    None
                } else {
                    match take_text_of(rest) {
                        None => None,
                        Some((token, _)) => Some(
                            (
                                b[0],
                                if tag == 0 {
                                    Role::Node
                                } else {
                                    Role::Lease
                                },
                                token,
                            ),
                        ),
                    }
                },
            }
        }
    }

    /// What is reported of a frame that spells no hello.
    pub open spec fn fault(b: Seq<u8>) -> Seq<char> {
        if b.len() == 0 {
            ended()
        } else {
            match take_u32_of(b.skip(1)) {
                None => u32_fault(b.skip(1)),
                Some((tag, rest)) => if tag > 1 {
                    no_variant()
                } else {
                    text_fault(rest)
                },
            }
        }
    }

    /// Decodes a frame, or says what is wrong with it.
    pub fn decode(b: &[u8]) -> (r: Result<Hello, String>)
        ensures
            match Hello::parse(b@) {
                Some((version, role, token)) => r matches Ok(h) && h.version == version
                    && h.role == role && h.token@ == token,
                None => r matches Err(e) && e@ == Hello::fault(b@),
            },
    {
        let (version, rest) = match take_u8(b) {
            Ok(p) => p,
            Err(e) => return Err(e),
        };
        let (tag, rest) = match take_u32(rest) {
            Ok(p) => p,
            Err(e) => return Err(e),
        };
        let role = match tag {
            0 => Role::Node,
            1 => Role::Lease,
            _ => return Err(unknown_variant()),
        };
        match take_text(rest) {
            Ok((token, _)) => Ok(Hello { version, role, token }),
            Err(e) => Err(e),
        }
    }
}

impl HelloReply {
    /// The message as it stands in its frame.
    pub open spec fn bytes(self) -> Seq<u8> {
        match self {
            HelloReply::Welcome { rig_name } => varint(0) + text_bytes(rig_name@),
            HelloReply::Denied => varint(1),
        }
    }

    /// Encodes the message.
    pub fn encode(&self) -> (r: Vec<u8>)
        ensures
            r@ == self.bytes(),
    {
        match self {
            HelloReply::Welcome { rig_name } => {
                let mut out = put_u32(0).unwrap();
                out.append(&mut put_text(rig_name.as_str()).unwrap());
                out
            },
            HelloReply::Denied => put_u32(1).unwrap(),
        }
    }

    /// What a frame spells: the rig's name, a refusal (an inner `None`), or
    /// no reply at all. Bytes after the reply are ignored.
    pub open spec fn parse(b: Seq<u8>) -> Option<Option<Seq<char>>> {
        match take_u32_of(b) {
            None => None,
            Some((tag, rest)) => if tag == 0 {
                match take_text_of(rest) {
                    Some((rig_name, _)) => Some(Some(rig_name)),
                    None => None,
                }
            } else if tag == 1 {
                Some(None)
            } else {
                None
            },
        }
    }

    /// What is reported of a frame that spells no reply.
    pub open spec fn fault(b: Seq<u8>) -> Seq<char> {
        match take_u32_of(b) {
            None => u32_fault(b),
            Some((tag, rest)) => if tag == 0 {
                text_fault(rest)
            } else {
                no_variant()
            },
        }
    }

    /// Decodes a frame, or says what is wrong with it.
    pub fn decode(b: &[u8]) -> (r: Result<HelloReply, String>)
        ensures
            match HelloReply::parse(b@) {
                Some(Some(name)) => r matches Ok(HelloReply::Welcome { rig_name }) && rig_name@
                    == name,
                Some(None) => r matches Ok(HelloReply::Denied),
                None => r matches Err(e) && e@ == HelloReply::fault(b@),
            },
    {
        let (tag, rest) = match take_u32(b) {
            Ok(p) => p,
            Err(e) => return Err(e),
        };
        match tag {
            0 => match take_text(rest) {
                Ok((rig_name, _)) => Ok(HelloReply::Welcome { rig_name }),
                Err(e) => Err(e),
            },
            1 => Ok(HelloReply::Denied),
            _ => Err(unknown_variant()),
        }
    }
}

/// The frame that opens a connection.
pub open spec fn hello_bytes(role: Role, token: Seq<char>) -> Seq<u8> {
    seq![NET_VERSION] + varint(role.tag()) + text_bytes(token)
}

/// Builds the frame that opens a connection.
pub fn handshake_hello(role: Role, token: &str) -> (r: Vec<u8>)
    ensures
        r@ == hello_bytes(role, token@),
{
    Hello { version: NET_VERSION, role, token: token.to_owned() }.encode()
}

/// The rig's name out of the daemon's reply, or why there is none.
pub fn handshake_client(reply: &[u8]) -> (r: Result<String, HandshakeError>)
    ensures
        match HelloReply::parse(reply@) {
            Some(Some(name)) => r matches Ok(rig_name) && rig_name@ == name,
            Some(None) => r == Err::<String, HandshakeError>(HandshakeError::Refused),
            None => r matches Err(HandshakeError::Garbled(e)) && e@ == HelloReply::fault(reply@),
        },
{
    match HelloReply::decode(reply) {
        Ok(HelloReply::Welcome { rig_name }) => Ok(rig_name),
        Ok(HelloReply::Denied) => Err(HandshakeError::Refused),
        Err(e) => Err(HandshakeError::Garbled(e)),
    }
}

/// The daemon lets in the peer that sent `hello`.
pub open spec fn admits(hello: Option<(u8, Role, Seq<char>)>, token: Seq<char>) -> bool {
    hello matches Some((version, _, t)) && version == NET_VERSION && t == token
}

/// The frame that answers `hello`: the rig's name for a peer that is let in,
/// a refusal for every other, a garbled one too.
pub open spec fn answer(
    hello: Option<(u8, Role, Seq<char>)>,
    token: Seq<char>,
    rig_name: Seq<char>,
) -> Seq<u8> {
    if admits(hello, token) {
        varint(0) + text_bytes(rig_name)
    } else {
        varint(1)
    }
}

/// The server half of the handshake on the opening frame of a connection:
/// the frame to answer with, and the role to dispatch on. On failure the
/// answer is a refusal, and the connection should be dropped.
pub fn handshake_server(hello: &[u8], token: &str, rig_name: &str) -> (r: (
    Vec<u8>,
    Result<Role, HandshakeError>,
))
    ensures
        r.0@ == answer(Hello::parse(hello@), token@, rig_name@),
        match Hello::parse(hello@) {
            None => r.1 matches Err(HandshakeError::Garbled(e)) && e@ == Hello::fault(hello@),
            Some((version, role, t)) => if version == NET_VERSION && t == token@ {
                r.1 == Ok::<Role, HandshakeError>(role)
            } else {
                r.1 == Err::<Role, HandshakeError>(
                    HandshakeError::Denied { version, token_ok: t == token@ },
                )
            },
        },
{
    let hello = match Hello::decode(hello) {
        Ok(h) => h,
        Err(e) => return (HelloReply::Denied.encode(), Err(HandshakeError::Garbled(e))),
    };
    let token_ok = token_eq(hello.token.as_str(), token);
    if hello.version != NET_VERSION || !token_ok {
        return (
            HelloReply::Denied.encode(),
            Err(HandshakeError::Denied { version: hello.version, token_ok }),
        );
    }
    (HelloReply::Welcome { rig_name: rig_name.to_owned() }.encode(), Ok(hello.role))
}

impl HandshakeError {
    /// The text that reports the error.
    pub open spec fn text(self) -> Seq<char> {
        match self {
            HandshakeError::Garbled(e) => e@,
            HandshakeError::Refused => "rig daemon denied the handshake (bad token?)"@,
            HandshakeError::Denied { version, token_ok } => "handshake denied: version "@ + dec(
                version as nat,
            ) + " (want "@ + dec(NET_VERSION as nat) + "), token "@ + if token_ok {
                "ok"@
            } else {
                "mismatch"@
            },
        }
    }

    /// Reports the error.
    pub fn to_string(&self) -> (r: String)
        ensures
            r@ == self.text(),
    {
        match self {
            HandshakeError::Garbled(e) => e.clone(),
            HandshakeError::Refused => "rig daemon denied the handshake (bad token?)".to_owned(),
            HandshakeError::Denied { version, token_ok } => {
                let mut out = "handshake denied: version ".to_owned();
                push_dec(&mut out, *version as u128);
                out.append(" (want ");
                push_dec(&mut out, NET_VERSION as u128);
                out.append("), token ");
                out.append(
                    if *token_ok {
                        "ok"
                    } else {
                        "mismatch"
                    },
                );
                out
            },
        }
    }
}

/// The frame of a hello reads back as the version, role and token that it was
/// made of.
pub proof fn hello_reads_back(version: u8, role: Role, token: Seq<char>)
    requires
        encode_utf8(token).len() <= usize::MAX,
    ensures
        Hello::parse(seq![version] + varint(role.tag()) + text_bytes(token)) == Some(
            (version, role, token),
        ),
{
    let b = seq![version] + varint(role.tag()) + text_bytes(token);
    let tail = text_bytes(token);
    assert(b.skip(1) == varint(role.tag()) + tail);
    u32_reads_back(role.tag() as u32, tail);
    assert(tail + Seq::<u8>::empty() == tail);
    text_reads_back(token, Seq::empty());
}

/// The frame of a reply reads back as what was answered.
pub proof fn hello_reply_reads_back(rig_name: Seq<char>)
    requires
        encode_utf8(rig_name).len() <= usize::MAX,
    ensures
        HelloReply::parse(varint(0) + text_bytes(rig_name)) == Some(Some(rig_name)),
        HelloReply::parse(varint(1)) == Some(None::<Seq<char>>),
{
    let tail = text_bytes(rig_name);
    u32_reads_back(0, tail);
    assert(tail + Seq::<u8>::empty() == tail);
    text_reads_back(rig_name, Seq::empty());
    u32_reads_back(1, Seq::empty());
    assert(varint(1) + Seq::<u8>::empty() == varint(1));
}

/// Both halves of the handshake agree. The daemon lets a client in exactly
/// when they hold the same token; the client then learns the rig's name and
/// the daemon its role. Otherwise the client is told it was refused.
pub proof fn handshake_agrees(role: Role, token: Seq<char>, secret: Seq<char>, rig_name: Seq<char>)
    requires
        encode_utf8(token).len() <= usize::MAX,
        encode_utf8(rig_name).len() <= usize::MAX,
    ensures
        Hello::parse(hello_bytes(role, token)) == Some((NET_VERSION, role, token)),
        admits(Hello::parse(hello_bytes(role, token)), secret) == (token == secret),
        HelloReply::parse(
            answer(Hello::parse(hello_bytes(role, token)), secret, rig_name),
        ) == if token == secret {
            Some(Some(rig_name))
        } else {
            Some(None)
        },
{
    hello_reads_back(NET_VERSION, role, token);
    hello_reply_reads_back(rig_name);
}

/// Whatever a peer opens with, it is answered: a peer that is not let in gets
/// the refusal, which is the same for every rig and so never gives away the
/// rig's name.
pub proof fn whoever_is_not_let_in_is_refused(
    hello: Seq<u8>,
    token: Seq<char>,
    rig_name: Seq<char>,
    other_name: Seq<char>,
)
    requires
        !admits(Hello::parse(hello), token),
    ensures
        HelloReply::parse(answer(Hello::parse(hello), token, rig_name)) == Some(
            None::<Seq<char>>,
        ),
        answer(Hello::parse(hello), token, rig_name) == answer(
            Hello::parse(hello),
            token,
            other_name,
        ),
{
    u32_reads_back(1, Seq::empty());
    assert(varint(1) + Seq::<u8>::empty() == varint(1));
}

/// Tokens are equal exactly when they are the same text.
pub proof fn tokens_are_compared_whole(a: &str, b: &str, r: bool)
    requires
        call_ensures(token_eq, (a, b), r),
    ensures
        r == (a@.len() == b@.len() && forall|i: int| 0 <= i < a@.len() ==> #[trigger] a@[i] == b@[i]),
{
    if a@.len() == b@.len() && forall|i: int| 0 <= i < a@.len() ==> #[trigger] a@[i] == b@[i] {
        assert(a@ =~= b@);
    }
}

/// A handshake from end to end: the client opens with its role and token, the
/// daemon answers, and the client reads the answer. With the same token on
/// both sides the daemon learns the role and the client the rig's name; with
/// any other both learn that it was refused.
pub proof fn a_handshake_succeeds_by_the_token(
    role: Role,
    token: &str,
    opening: Vec<u8>,
    hello: &[u8],
    secret: &str,
    rig_name: &str,
    answered: (Vec<u8>, Result<Role, HandshakeError>),
    reply: &[u8],
    r: Result<String, HandshakeError>,
)
    requires
        encode_utf8(token@).len() <= usize::MAX,
        encode_utf8(rig_name@).len() <= usize::MAX,
        call_ensures(handshake_hello, (role, token), opening),
        hello@ == opening@,
        call_ensures(handshake_server, (hello, secret, rig_name), answered),
        reply@ == answered.0@,
        call_ensures(handshake_client, (reply,), r),
    ensures
        token@ == secret@ ==> answered.1 == Ok::<Role, HandshakeError>(role) && (r matches Ok(name)
            && name@ == rig_name@),
        token@ != secret@ ==> answered.1 is Err && (r matches Err(HandshakeError::Refused)),
{
    handshake_agrees(role, token@, secret@, rig_name@);
}

/// Whatever a peer opens with, it is let in exactly when that is a hello of
/// this version with the daemon's token, and then in the role it asks for.
/// Everyone else is answered with a refusal.
pub proof fn only_the_right_hello_is_let_in(
    hello: &[u8],
    secret: &str,
    rig_name: &str,
    read: Result<Hello, String>,
    answered: (Vec<u8>, Result<Role, HandshakeError>),
    reply: &[u8],
    told: Result<HelloReply, String>,
)
    requires
        encode_utf8(rig_name@).len() <= usize::MAX,
        call_ensures(Hello::decode, (hello,), read),
        call_ensures(handshake_server, (hello, secret, rig_name), answered),
        reply@ == answered.0@,
        call_ensures(HelloReply::decode, (reply,), told),
    ensures
        answered.1 is Ok == (read is Ok && read->Ok_0.version == 0 && read->Ok_0.token@
            == secret@),
        answered.1 matches Ok(role) ==> role == read->Ok_0.role,
        answered.1 is Ok ==> (told matches Ok(HelloReply::Welcome { rig_name: n }) && n@
            == rig_name@),
        answered.1 is Err ==> (told matches Ok(HelloReply::Denied)),
        read is Err ==> (answered.1 matches Err(HandshakeError::Garbled(e)) && e@
            == read->Err_0@),
        read is Ok && answered.1 is Err ==> (answered.1 matches Err(HandshakeError::Denied {
            version,
            token_ok,
        }) && version == read->Ok_0.version && token_ok == (read->Ok_0.token@ == secret@)),
{
    hello_reply_reads_back(rig_name@);
}

/// A reply is taken for what it says: a welcome gives the rig's name, a
/// refusal is a refusal, and anything else is garbled, with the reason.
pub proof fn a_reply_is_taken_for_what_it_says(
    reply: &[u8],
    read: Result<HelloReply, String>,
    r: Result<String, HandshakeError>,
)
    requires
        call_ensures(HelloReply::decode, (reply,), read),
        call_ensures(handshake_client, (reply,), r),
    ensures
        match read {
            Ok(HelloReply::Welcome { rig_name }) => r matches Ok(name) && name@ == rig_name@,
            Ok(HelloReply::Denied) => r matches Err(HandshakeError::Refused),
            Err(e) => r matches Err(HandshakeError::Garbled(text)) && text@ == e@,
        },
{
}

/// A hello is a byte for the version, a byte for the role, 0 for a node and 1
/// for a lease, and the token as text, and nothing else; one that opens a
/// connection is of version 0.
pub proof fn a_hello_on_the_wire(
    h: Hello,
    sent: Vec<u8>,
    role: Role,
    token: &str,
    opening: Vec<u8>,
)
    requires
        encode_utf8(h.token@).len() <= usize::MAX,
        encode_utf8(token@).len() <= usize::MAX,
        call_ensures(Hello::encode, (&h,), sent),
        call_ensures(handshake_hello, (role, token), opening),
    ensures
        sent@.len() >= 2,
        sent@[0] == h.version,
        h.role is Node ==> sent@[1] == 0,
        h.role is Lease ==> sent@[1] == 1,
        take_text_of(sent@.skip(2)) == Some((h.token@, Seq::<u8>::empty())),
        opening@.len() >= 2,
        opening@[0] == 0,
        role is Node ==> opening@[1] == 0,
        role is Lease ==> opening@[1] == 1,
        take_text_of(opening@.skip(2)) == Some((token@, Seq::<u8>::empty())),
{
    let none = Seq::<u8>::empty();
    assert(sent@.skip(2) =~= text_bytes(h.token@) + none);
    text_reads_back(h.token@, none);
    assert(opening@.skip(2) =~= text_bytes(token@) + none);
    text_reads_back(token@, none);
}

/// A welcome is a zero and the rig's name as text, a refusal is a one.
pub proof fn a_reply_on_the_wire(a: HelloReply, sent: Vec<u8>)
    requires
        a matches HelloReply::Welcome { rig_name } ==> encode_utf8(rig_name@).len() <= usize::MAX,
        call_ensures(HelloReply::encode, (&a,), sent),
    ensures
        match a {
            HelloReply::Welcome { rig_name } => sent@.len() > 0 && sent@[0] == 0 && take_text_of(
                sent@.skip(1),
            ) == Some((rig_name@, Seq::<u8>::empty())),
            HelloReply::Denied => sent@ == seq![1u8],
        },
{
    let none = Seq::<u8>::empty();
    if let HelloReply::Welcome { rig_name } = a {
        assert(sent@.skip(1) =~= text_bytes(rig_name@) + none);
        text_reads_back(rig_name@, none);
    }
}

/// What was sent as a hello or a reply is read as that.
pub proof fn handshake_messages_read_back(
    h: Hello,
    sent: Vec<u8>,
    frame: &[u8],
    read: Result<Hello, String>,
    a: HelloReply,
    answered: Vec<u8>,
    back: &[u8],
    told: Result<HelloReply, String>,
)
    requires
        encode_utf8(h.token@).len() <= usize::MAX,
        a matches HelloReply::Welcome { rig_name } ==> encode_utf8(rig_name@).len() <= usize::MAX,
        call_ensures(Hello::encode, (&h,), sent),
        frame@ == sent@,
        call_ensures(Hello::decode, (frame,), read),
        call_ensures(HelloReply::encode, (&a,), answered),
        back@ == answered@,
        call_ensures(HelloReply::decode, (back,), told),
    ensures
        read matches Ok(g) && g.version == h.version && g.role == h.role && g.token@ == h.token@,
        match a {
            HelloReply::Welcome { rig_name } => told matches Ok(HelloReply::Welcome {
                rig_name: n,
            }) && n@ == rig_name@,
            HelloReply::Denied => told matches Ok(HelloReply::Denied),
        },
{
    hello_reads_back(h.version, h.role, h.token@);
    match a {
        HelloReply::Welcome { rig_name } => {
            hello_reply_reads_back(rig_name@);
        },
        HelloReply::Denied => {
            u32_reads_back(1, Seq::empty());
            assert(varint(1) + Seq::<u8>::empty() == varint(1));
        },
    }
}

/// A frame that spells no role, or no message at all, is refused.
pub proof fn unknown_roles_are_refused(
    frame: &[u8],
    read: Result<Hello, String>,
    told: Result<HelloReply, String>,
)
    requires
        call_ensures(Hello::decode, (frame,), read),
        call_ensures(HelloReply::decode, (frame,), told),
    ensures
        frame@.len() < 3 ==> read is Err,
        frame@.len() >= 2 && 1 < frame@[1] < 128 ==> read is Err,
        frame@.len() == 0 ==> told is Err,
        frame@.len() > 0 && 1 < frame@[0] < 128 ==> told is Err,
{
    if 0 < frame@.len() < 3 {
        let b = frame@.skip(1);
        if b.len() == 1 {
            let rest = b.skip(1);
            assert(rest.len() == 0);
            reveal_with_fuel(crate::wire::take_varint, 6);
        }
    } else if frame@.len() >= 3 {
        assert(frame@.skip(1)[0] == frame@[1]);
    }
}

/// What is reported of a refused peer says which version it spoke and whether
/// its token was the right one.
pub proof fn a_handshake_report_says_why(e: HandshakeError, r: String)
    requires
        call_ensures(HandshakeError::to_string, (&e,), r),
    ensures
        match e {
            HandshakeError::Garbled(text) => r@ == text@,
            HandshakeError::Refused => mentions(r@, "denied"@),
            HandshakeError::Denied { version, token_ok } => mentions(
                r@,
                "version "@ + dec(version as nat) + " (want "@,
            ) && mentions(
                r@,
                if token_ok {
                    "token ok"@
                } else {
                    "token mismatch"@
                },
            ),
        },
{
    broadcast use crate::text::group_mentions;

    reveal_strlit("rig daemon denied the handshake (bad token?)");
    reveal_strlit("rig daemon ");
    reveal_strlit("denied");
    reveal_strlit(" the handshake (bad token?)");
    assert("rig daemon denied the handshake (bad token?)"@ =~= "rig daemon "@ + "denied"@
        + " the handshake (bad token?)"@);
    if let HandshakeError::Denied { version, token_ok } = e {
        reveal_strlit("), token ");
        reveal_strlit("), ");
        reveal_strlit("ok");
        reveal_strlit("mismatch");
        reveal_strlit("token ok");
        reveal_strlit("token mismatch");
        reveal_strlit("handshake denied: version ");
        reveal_strlit("handshake denied: ");
        reveal_strlit("version ");
        assert("handshake denied: version "@ =~= "handshake denied: "@ + "version "@);
        let v = "version "@ + dec(version as nat) + " (want "@;
        let w = if token_ok {
            "ok"@
        } else {
            "mismatch"@
        };
        assert(r@ =~= "handshake denied: "@ + (v + (dec(NET_VERSION as nat) + "), token "@ + w)));
        let a = "handshake denied: version "@ + dec(version as nat) + " (want "@ + dec(
            NET_VERSION as nat,
        ) + "), "@;
        let w = if token_ok {
            "token ok"@
        } else {
            "token mismatch"@
        };
        assert(r@ =~= a + w);
    }
}

/// Whatever a frame holds, it is read as a hello of the version in its first
/// byte and the role that the number after it stands for, with the token that
/// follows, or else what is wrong with it is reported.
pub proof fn any_hello_frame_is_read(
    frame: &[u8],
    tag: nat,
    rest: Seq<u8>,
    r: Result<Hello, String>,
)
    requires
        call_ensures(Hello::decode, (frame,), r),
        take_u32_of(frame@.skip(1)) is Some ==> take_u32_of(frame@.skip(1)) == Some((tag, rest)),
    ensures
        frame@.len() == 0 ==> (r matches Err(e) && e@
            == "Hit the end of buffer, expected more data"@),
        frame@.len() > 0 && take_u32_of(frame@.skip(1)) is None ==> (r matches Err(e) && e@
            == u32_fault(frame@.skip(1))),
        frame@.len() > 0 && take_u32_of(frame@.skip(1)) is Some ==> {
            &&& tag <= 1 ==> match take_text_of(rest) {
                None => r matches Err(e) && e@ == text_fault(rest),
                Some((token, _)) => r matches Ok(h) && h.version == frame@[0] && h.token@ == token
                    && h.role is Lease == (tag == 1),
            }
            &&& tag > 1 ==> (r matches Err(e) && e@ == "Serde Deserialization Error"@)
        },
{
}

/// Whatever a frame holds, it is read by the number at its start: as a welcome
/// with the name that follows a zero, as a refusal for a one, and otherwise
/// what is wrong with it is reported.
pub proof fn any_reply_frame_is_read(
    frame: &[u8],
    tag: nat,
    rest: Seq<u8>,
    r: Result<HelloReply, String>,
)
    requires
        call_ensures(HelloReply::decode, (frame,), r),
        take_u32_of(frame@) is Some ==> take_u32_of(frame@) == Some((tag, rest)),
    ensures
        take_u32_of(frame@) is None ==> (r matches Err(e) && e@ == u32_fault(frame@)),
        take_u32_of(frame@) is Some ==> {
            &&& tag == 0 ==> match take_text_of(rest) {
                None => r matches Err(e) && e@ == text_fault(rest),
                Some((name, _)) => r matches Ok(HelloReply::Welcome { rig_name }) && rig_name@
                    == name,
            }
            &&& tag == 1 ==> (r matches Ok(HelloReply::Denied))
            &&& tag > 1 ==> (r matches Err(e) && e@ == "Serde Deserialization Error"@)
        },
{
}

} // verus!
