//! Connecting to a node: which transport, which device, and whether the node
//! that answers is the one the rig config means.

use crate::config::{is_unique_id, AssistantConfig};
use crate::icd::{Identity, NodeRole, PROTOCOL_VERSION};
use crate::text::{
    all_hex, ascii_lower, dec, eq_ignore_case, hex, hex16, hex_digit, mentions,
    push_dec, same, same_ignoring_case, spelled, wrap,
};
use vstd::prelude::*;
use vstd::string::*;

verus! {

/// How to reach a node.
#[derive(Debug)]
pub enum Route {
    /// An authenticated connection to a rig daemon.
    Network { addr: String, token: String },
    /// Enumeration of the attached devices.
    Usb,
}

/// Why a node is not the one the rig config means.
#[derive(Debug)]
pub enum NodeError {
    NoToken { name: String },
    WrongRig { name: String, addr: String, rig_name: String, want: String },
    WrongProtocol { name: String, version: u32 },
    WrongDevice { name: String, got: String, want: String },
}

/// The strings that `want` asks for: nothing, or exactly that string.
pub open spec fn field_matches(want: Option<String>, got: Option<Seq<char>>) -> bool {
    match want {
        Some(w) => got == Some(w@),
        None => true,
    }
}

/// A USB device with these strings is the node that `cfg` means.
pub open spec fn device_matches(
    cfg: AssistantConfig,
    serial: Option<Seq<char>>,
    product: Option<Seq<char>>,
) -> bool {
    field_matches(cfg.serial, serial) && field_matches(cfg.product, product)
}

/// The views of optional text.
pub open spec fn text_in(s: Option<&str>) -> Option<Seq<char>> {
    match s {
        Some(t) => Some(t@),
        None => None,
    }
}

fn field_ok(want: &Option<String>, got: Option<&str>) -> (r: bool)
    ensures
        r == field_matches(*want, text_in(got)),
{
    match want {
        Some(w) => match got {
            Some(g) => same(g, w.as_str()),
            None => false,
        },
        None => true,
    }
}

impl AssistantConfig {
    /// Whether an attached USB device is this node.
    pub fn matches_device(&self, serial: Option<&str>, product: Option<&str>) -> (r: bool)
        ensures
            r == device_matches(*self, text_in(serial), text_in(product)),
    {
        field_ok(&self.serial, serial) && field_ok(&self.product, product)
    }

    /// How to reach this node: over the network when it has an address, which
    /// takes a token.
    pub fn route(&self, token: Option<&str>) -> (r: Result<Route, NodeError>)
        ensures
            match self.addr {
                None => r == Ok::<Route, NodeError>(Route::Usb),
                Some(a) => match token {
                    None => r == Err::<Route, NodeError>(NodeError::NoToken { name: self.name }),
                    Some(t) => r matches Ok(Route::Network { addr, token }) && addr == a
                        && token@ == t@,
                },
            },
    {
        match &self.addr {
            None => Ok(Route::Usb),
            Some(addr) => match token {
                None => Err(NodeError::NoToken { name: self.name.clone() }),
                Some(t) => Ok(Route::Network { addr: addr.clone(), token: t.to_owned() }),
            },
        }
    }

    /// Checks that the daemon at `addr` belongs to the expected rig, before a
    /// single test runs against the wrong hardware.
    pub fn check_rig(&self, addr: &str, rig_name: &str, expected: Option<&str>) -> (r: Result<
        (),
        NodeError,
    >)
        ensures
            match expected {
                Some(want) => if rig_name@ == want@ {
                    r is Ok
                } else {
                    r matches Err(NodeError::WrongRig { name, addr: a, rig_name: n, want: w })
                        && name == self.name && a@ == addr@ && n@ == rig_name@ && w@ == want@
                },
                None => r is Ok,
            },
    {
        if let Some(want) = expected {
            if !same(rig_name, want) {
                return Err(
                    NodeError::WrongRig {
                        name: self.name.clone(),
                        addr: addr.to_owned(),
                        rig_name: rig_name.to_owned(),
                        want: want.to_owned(),
                    },
                );
            }
        }
        Ok(())
    }

    /// `identity` is one that this entry accepts.
    pub open spec fn accepts(self, protocol_version: u32, unique_id: u64) -> bool {
        &&& protocol_version == PROTOCOL_VERSION
        &&& self.unique_id matches Some(want) ==> same_ignoring_case(
            hex(unique_id as nat, 16),
            want@,
        )
    }

    /// Checks who answered. A node that is not an assistant is worth a
    /// warning, which is returned, but not a failure.
    pub fn identify(&self, identity: &Identity) -> (r: Result<Option<String>, NodeError>)
        ensures
            r is Ok == self.accepts(identity.protocol_version, identity.unique_id),
            identity.protocol_version != PROTOCOL_VERSION ==> r == Err::<
                Option<String>,
                NodeError,
            >(
                NodeError::WrongProtocol {
                    name: self.name,
                    version: identity.protocol_version,
                },
            ),
            identity.protocol_version == PROTOCOL_VERSION && r is Err ==> {
                &&& r matches Err(NodeError::WrongDevice { name, got, want })
                &&& name == self.name && got@ == hex(identity.unique_id as nat, 16)
                &&& self.unique_id == Some(want)
            },
            r matches Ok(warning) ==> match identity.role {
                NodeRole::Assistant => warning is None,
                NodeRole::Custom => warning matches Some(w) && w@ == "banc: node '"@ + self.name@
                    + "' reports role Custom, not Assistant (check the rig config)"@,
            },
    {
        if identity.protocol_version != PROTOCOL_VERSION {
            return Err(
                NodeError::WrongProtocol {
                    name: self.name.clone(),
                    version: identity.protocol_version,
                },
            );
        }
        // USB nodes are told apart by their serial; for a network node this is
        // the only device-identity check.
        if let Some(want) = &self.unique_id {
            let got = hex16(identity.unique_id);
            if !eq_ignore_case(got.as_str(), want.as_str()) {
                return Err(
                    NodeError::WrongDevice { name: self.name.clone(), got, want: want.clone() },
                );
            }
        }
        match identity.role {
            NodeRole::Assistant => Ok(None),
            NodeRole::Custom => Ok(
                Some(
                    wrap(
                        "banc: node '",
                        self.name.as_str(),
                        "' reports role Custom, not Assistant (check the rig config)",
                    ),
                ),
            ),
        }
    }
}

impl NodeError {
    /// The text that reports the error.
    pub open spec fn text(self) -> Seq<char> {
        match self {
            NodeError::NoToken { name } => "node '"@ + name@
                + "' has addr but no token was resolved"@,
            NodeError::WrongRig { name, addr, rig_name, want } => "node '"@ + name@ + "' at "@
                + addr@ + " belongs to rig '"@ + rig_name@ + "', expected '"@ + want@ + "'"@,
            NodeError::WrongProtocol { name, version } => "node '"@ + name@
                + "' speaks banc protocol v"@ + dec(version as nat) + ", host expects v"@ + dec(
                PROTOCOL_VERSION as nat,
            ),
            NodeError::WrongDevice { name, got, want } => "node '"@ + name@
                + "' reports unique id "@ + got@ + ", config expects "@ + want@,
        }
    }

    /// Reports the error.
    pub fn to_string(&self) -> (r: String)
        ensures
            r@ == self.text(),
    {
        match self {
            NodeError::NoToken { name } => wrap(
                "node '",
                name.as_str(),
                "' has addr but no token was resolved",
            ),
            NodeError::WrongRig { name, addr, rig_name, want } => {
                let mut out = wrap("node '", name.as_str(), "' at ");
                out.append(addr.as_str());
                out.append(" belongs to rig '");
                out.append(rig_name.as_str());
                out.append("', expected '");
                out.append(want.as_str());
                out.append("'");
                out
            },
            NodeError::WrongProtocol { name, version } => {
                let mut out = wrap("node '", name.as_str(), "' speaks banc protocol v");
                push_dec(&mut out, *version as u128);
                out.append(", host expects v");
                push_dec(&mut out, PROTOCOL_VERSION as u128);
                out
            },
            NodeError::WrongDevice { name, got, want } => {
                let mut out = wrap("node '", name.as_str(), "' reports unique id ");
                out.append(got.as_str());
                out.append(", config expects ");
                out.append(want.as_str());
                out
            },
        }
    }
}

/// An assistant entry that passed validation never matches just any device:
/// one that surfaces neither a serial nor a product string is not it.
pub proof fn valid_usb_entry_constrains_the_match(cfg: AssistantConfig)
    requires
        cfg.problem() is None,
        cfg.addr is None,
    ensures
        !device_matches(cfg, None, None),
{
}

/// The serial string that a device surfaces is a valid unique id, and an
/// entry pinned to it accepts that device and no other.
pub proof fn serial_pins_the_device(cfg: AssistantConfig, id: u64, other: u64)
    requires
        cfg.unique_id matches Some(want) && want@ == hex(id as nat, 16),
    ensures
        is_unique_id(hex(id as nat, 16)),
        cfg.accepts(PROTOCOL_VERSION, other) == (other == id),
{
    lemma_hex_digits(id as nat, 16);
    reveal_with_fuel(hex_capacity, 17);
    lemma_hex_injective(id as nat, other as nat, 16);
}

proof fn lemma_hex_digits(n: nat, width: nat)
    ensures
        hex(n, width).len() == width,
        all_hex(hex(n, width)),
    decreases width,
{
    if width > 0 {
        lemma_hex_digits(n / 16, (width - 1) as nat);
        let s = hex(n, width);
        let p = hex(n / 16, (width - 1) as nat);
        assert forall|i: int| 0 <= i < s.len() implies crate::text::is_hex_digit(
            #[trigger] s[i],
        ) by {
            if i < p.len() {
                assert(s[i] == p[i]);
            }
        }
    }
}

/// One more than the largest number of `width` hexadecimal digits.
spec fn hex_capacity(width: nat) -> nat
    decreases width,
{
    if width == 0 {
        1
    } else {
        16 * hex_capacity((width - 1) as nat)
    }
}

proof fn lemma_hex_injective(a: nat, b: nat, width: nat)
    requires
        a < hex_capacity(width),
        b < hex_capacity(width),
    ensures
        same_ignoring_case(hex(b, width), hex(a, width)) == (a == b),
    decreases width,
{
    if width > 0 && same_ignoring_case(hex(b, width), hex(a, width)) {
        let w = (width - 1) as nat;
        lemma_hex_digits(a / 16, w);
        lemma_hex_digits(b / 16, w);
        let f = |c: char| ascii_lower(c);
        let p = hex(a, width).map_values(f);
        let q = hex(b, width).map_values(f);
        assert(p == q);
        assert(p[w as int] == ascii_lower(hex_digit(a % 16)));
        assert(q[w as int] == ascii_lower(hex_digit(b % 16)));
        assert(a % 16 == b % 16);
        assert(hex(a / 16, w).map_values(f) =~= p.take(w as int));
        assert(hex(b / 16, w).map_values(f) =~= q.take(w as int));
        lemma_hex_injective(a / 16, b / 16, w);
    }
}

/// A device matches by the strings that the entry names, each of them: one
/// that differs or is absent rules the device out, whatever the other is, and
/// a device that has every string named matches.
pub proof fn a_device_matches_by_every_string_named(
    cfg: AssistantConfig,
    serial: Option<&str>,
    product: Option<&str>,
    r: bool,
)
    requires
        call_ensures(AssistantConfig::matches_device, (&cfg, serial, product), r),
    ensures
        cfg.serial is Some && serial is None ==> !r,
        cfg.serial is Some && serial is Some && serial->0@ != cfg.serial->0@ ==> !r,
        cfg.product is Some && product is None ==> !r,
        cfg.product is Some && product is Some && product->0@ != cfg.product->0@ ==> !r,
        (cfg.serial is Some ==> serial is Some && serial->0@ == cfg.serial->0@) && (
        cfg.product is Some ==> product is Some && product->0@ == cfg.product->0@) ==> r,
{
}

/// A node with an address is reached over the network, at that address and
/// with the token given, or not at all; one without is looked for on USB.
pub proof fn an_address_decides_the_route(
    cfg: AssistantConfig,
    token: Option<&str>,
    r: Result<Route, NodeError>,
)
    requires
        call_ensures(AssistantConfig::route, (&cfg, token), r),
    ensures
        (r matches Ok(Route::Usb)) == (cfg.addr is None),
        r is Err == (cfg.addr is Some && token is None),
        r matches Ok(Route::Network { addr, token: t }) ==> cfg.addr is Some && addr@
            == cfg.addr->0@ && token is Some && t@ == token->0@,
        r matches Err(e) ==> (e matches NodeError::NoToken { name } && name@ == cfg.name@),
{
}

/// A daemon is accepted exactly when no rig is expected, or it belongs to the
/// rig that is; the report of one that does not names both.
pub proof fn a_daemon_of_another_rig_is_refused(
    cfg: AssistantConfig,
    addr: &str,
    rig_name: &str,
    expected: Option<&str>,
    r: Result<(), NodeError>,
)
    requires
        call_ensures(AssistantConfig::check_rig, (&cfg, addr, rig_name, expected), r),
    ensures
        r is Ok == (expected is None || expected->0@ == rig_name@),
        r matches Err(e) ==> (e matches NodeError::WrongRig { name, addr: a, rig_name: n, want }
            && name@ == cfg.name@ && a@ == addr@ && n@ == rig_name@ && want@ == expected->0@),
{
}

/// Who answered is accepted exactly when it speaks the host's protocol and
/// has the unique id that the entry pins, if it pins one: the number that its
/// sixteen hexadecimal digits, of either case, spell.
pub proof fn the_device_pinned_is_the_one_accepted(
    cfg: AssistantConfig,
    identity: Identity,
    r: Result<Option<String>, NodeError>,
)
    requires
        call_ensures(AssistantConfig::identify, (&cfg, &identity), r),
        cfg.unique_id matches Some(id) ==> id@.len() == 16 && forall|i: int|
            0 <= i < 16 ==> ('0' <= #[trigger] id@[i] <= '9') || ('a' <= id@[i] <= 'f') || ('A'
                <= id@[i] <= 'F'),
    ensures
        r is Ok == (identity.protocol_version == 0 && (cfg.unique_id is Some ==> spelled(
            cfg.unique_id->0@,
            16,
        ) == identity.unique_id)),
        identity.protocol_version != 0 ==> (r matches Err(NodeError::WrongProtocol {
            name,
            version,
        }) && name@ == cfg.name@ && version == identity.protocol_version),
        identity.protocol_version == 0 && r is Err ==> (r matches Err(NodeError::WrongDevice {
            name,
            got,
            want,
        }) && name@ == cfg.name@ && want@ == cfg.unique_id->0@ && spelled(got@, 16)
            == identity.unique_id),
        r matches Ok(warning) ==> warning is Some == (identity.role is Custom),
        r matches Ok(Some(warning)) ==> mentions(warning@, cfg.name@),
{
    let n = identity.unique_id as nat;
    lemma_hex_digits(n, 16);
    reveal_with_fuel(hex_capacity, 17);
    lemma_hex_value(n, 16);
    if let Some(id) = cfg.unique_id {
        assert(all_hex(id@));
        lemma_same_value(hex(n, 16), id@);
    }
    broadcast use crate::text::group_mentions;

}

/// Hexadecimal digits spell the number that they were made of.
proof fn lemma_hex_value(n: nat, width: nat)
    requires
        n < hex_capacity(width),
    ensures
        spelled(hex(n, width), 16) == n,
    decreases width,
{
    if width > 0 {
        lemma_hex_value(n / 16, (width - 1) as nat);
        assert(hex(n, width).drop_last() =~= hex(n / 16, (width - 1) as nat));
        assert(crate::text::digit_value(hex_digit(n % 16)) == n % 16);
    }
}

/// Of as many digits, those that differ in case only spell the same number,
/// and only those do.
proof fn lemma_same_value(a: Seq<char>, b: Seq<char>)
    requires
        a.len() == b.len(),
        all_hex(a),
        all_hex(b),
    ensures
        same_ignoring_case(a, b) == (spelled(a, 16) == spelled(b, 16)),
    decreases a.len(),
{
    let f = |c: char| ascii_lower(c);
    let p = a.map_values(f);
    let q = b.map_values(f);
    if a.len() > 0 {
        let x = a.drop_last();
        let y = b.drop_last();
        assert forall|i: int| 0 <= i < x.len() implies crate::text::is_hex_digit(
            #[trigger] x[i],
        ) by {
            assert(x[i] == a[i]);
        }
        assert forall|i: int| 0 <= i < y.len() implies crate::text::is_hex_digit(
            #[trigger] y[i],
        ) by {
            assert(y[i] == b[i]);
        }
        lemma_same_value(x, y);
        let n = a.len() - 1;
        assert(crate::text::is_hex_digit(a[n]) && crate::text::is_hex_digit(b[n]));
        lemma_same_digit(a[n], b[n]);
        assert(x.map_values(f) =~= p.take(n));
        assert(y.map_values(f) =~= q.take(n));
        assert(p =~= p.take(n).push(p[n]));
        assert(q =~= q.take(n).push(q[n]));
        assert(p[n] == ascii_lower(a[n]) && q[n] == ascii_lower(b[n]));
        assert(crate::text::digit_value(a[n]) < 16 && crate::text::digit_value(b[n]) < 16);
        if p == q {
            assert(p.take(n) == q.take(n));
        }
    } else {
        assert(p =~= q);
    }
}

proof fn lemma_same_digit(a: char, b: char)
    requires
        crate::text::is_hex_digit(a),
        crate::text::is_hex_digit(b),
    ensures
        (ascii_lower(a) == ascii_lower(b)) == (crate::text::digit_value(a)
            == crate::text::digit_value(b)),
{
}

/// What is reported of a node names it, and what was found and expected.
pub proof fn a_report_names_the_node(e: NodeError, r: String)
    requires
        call_ensures(NodeError::to_string, (&e,), r),
    ensures
        match e {
            NodeError::NoToken { name } => r@ == "node '"@ + name@
                + "' has addr but no token was resolved"@,
            NodeError::WrongRig { name, addr, rig_name, want } => r@ == "node '"@ + name@
                + "' at "@ + addr@ + " belongs to rig '"@ + rig_name@ + "', expected '"@ + want@
                + "'"@,
            NodeError::WrongProtocol { name, version } => r@ == "node '"@ + name@
                + "' speaks banc protocol v"@ + dec(version as nat) + ", host expects v"@ + dec(0),
            NodeError::WrongDevice { name, got, want } => r@ == "node '"@ + name@
                + "' reports unique id "@ + got@ + ", config expects "@ + want@,
        },
{
}

/// A pinned id is compared as text, whatever the entry pins: who answered is
/// accepted exactly when it speaks the host's protocol and its id, in sixteen
/// hexadecimal digits, is what is pinned but for case.
pub proof fn a_pinned_id_is_compared_whole(
    cfg: AssistantConfig,
    identity: Identity,
    r: Result<Option<String>, NodeError>,
    id: String,
    got: &str,
    want: &str,
    equal: bool,
)
    requires
        call_ensures(AssistantConfig::identify, (&cfg, &identity), r),
        call_ensures(hex16, (identity.unique_id,), id),
        got@ == id@,
        cfg.unique_id is Some ==> want@ == cfg.unique_id->0@,
        call_ensures(eq_ignore_case, (got, want), equal),
    ensures
        r is Ok == (identity.protocol_version == 0 && (cfg.unique_id is Some ==> equal)),
{
}

} // verus!
