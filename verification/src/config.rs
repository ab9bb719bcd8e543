//! Rig topology configuration.
//!
//! A rig is described by a `banc-rig.toml`, located via the `BANC_RIG`
//! environment variable or by searching from the current directory upward.
//! Its absence is the signal that this machine has no hardware attached:
//! suites self-skip.

use crate::text::{all_hex, blank, chars_of, hex_from, is_blank, mentions, same, texts, wrap};
use vstd::prelude::*;
use vstd::string::*;

verus! {

pub const CONFIG_FILE: &'static str = "banc-rig.toml";

pub const ENV_VAR: &'static str = "BANC_RIG";

/// A TOML table: driver settings are carried through without being read.
#[verifier::external_type_specification]
#[verifier::external_body]
#[verifier::reject_recursive_types(K)]
#[verifier::reject_recursive_types(V)]
pub struct ExTomlMap<K, V>(toml::map::Map<K, V>);

/// A TOML value, as the entries of a driver's settings hold it.
#[verifier::external_type_specification]
#[verifier::external_body]
pub struct ExTomlValue(toml::Value);

/// `toml`'s `Map::clone`, which copying an instrument's settings calls.
/// Nothing is claimed of the copy: a table is opaque here.
pub assume_specification<K, V>[ <toml::map::Map<K, V> as std::clone::Clone>::clone ](
    map: &toml::map::Map<K, V>,
) -> toml::map::Map<K, V> where K: std::clone::Clone, V: std::clone::Clone
;

/// The rig topology.
#[derive(Debug, Clone)]
pub struct RigConfig {
    pub rig: RigMeta,
    pub target: Option<TargetConfig>,
    pub assistants: Vec<AssistantConfig>,
    pub instruments: Vec<InstrumentConfig>,
}

#[derive(Debug, Clone)]
pub struct RigMeta {
    pub name: Option<String>,
    /// Advisory lock file serializing rig access across processes. Default:
    /// target/banc.lock next to the config file.
    pub lock_file: Option<String>,
    /// Network lease server on the rig daemon. When set, it replaces the
    /// lock file entirely.
    pub lease: Option<LeaseConfig>,
}

/// Where and how to take the network rig lease.
#[derive(Debug, Clone)]
pub struct LeaseConfig {
    /// host:port of the rig daemon.
    pub addr: String,
    /// File holding the shared token; relative paths resolve from the
    /// rig-config directory.
    pub token_file: String,
}

/// The device under test, driven via a debug probe.
#[derive(Debug, Clone)]
pub struct TargetConfig {
    /// Chip name in the target database, e.g. "STM32WL55JCIx".
    pub chip: String,
    /// Probe selector `VID:PID[:SERIAL]`. None: the only probe attached.
    pub probe: Option<String>,
    /// Remote probe server, e.g. "https://pi:3000". None: local USB probe.
    pub probe_host: Option<String>,
    /// Token file for the remote probe server; relative paths resolve from
    /// the rig-config directory.
    pub token_file: Option<String>,
}

/// An assistant node, reached over USB (serial/product match) or the network
/// (addr + token).
#[derive(Debug, Clone)]
pub struct AssistantConfig {
    /// Name tests use to look the node up, e.g. "a0".
    pub name: String,
    /// USB serial string (assistants surface their unique ID here).
    pub serial: Option<String>,
    /// USB product string to match when serial is not given.
    pub product: Option<String>,
    /// host:port of a network node. Mutually exclusive with the USB fields.
    pub addr: Option<String>,
    /// Token file for the network handshake; relative paths resolve from the
    /// rig-config directory.
    pub token_file: Option<String>,
    /// Expected device unique id as a 16-hex-digit string. When set, a
    /// connected node whose id differs is rejected. Case-insensitive.
    pub unique_id: Option<String>,
}

/// A bench instrument. Drivers are matched on `kind` by the suite.
#[derive(Debug, Clone)]
pub struct InstrumentConfig {
    pub name: String,
    /// Driver key, e.g. "rcdat", "scpi".
    pub kind: String,
    /// Free-form address: host:port, VISA resource, hidraw path...
    pub address: Option<String>,
    /// Driver-specific settings, passed through untouched.
    pub params: toml::map::Map<String, toml::Value>,
}

impl AssistantConfig {
    /// True when this entry describes a network node (addr set) rather than a
    /// USB one.
    pub fn is_network(&self) -> (r: bool)
        ensures
            r == self.addr is Some,
    {
        self.addr.is_some()
    }
}

impl Default for RigMeta {
    fn default() -> (r: Self)
        ensures
            r.name is None,
            r.lock_file is None,
            r.lease is None,
    {
        RigMeta { name: None, lock_file: None, lease: None }
    }
}

impl Default for RigConfig {
    fn default() -> (r: Self)
        ensures
            r.rig.name is None,
            r.rig.lock_file is None,
            r.rig.lease is None,
            r.target is None,
            r.assistants@.len() == 0,
            r.instruments@.len() == 0,
    {
        RigConfig {
            rig: RigMeta::default(),
            target: None,
            assistants: Vec::new(),
            instruments: Vec::new(),
        }
    }
}

/// Why a config that parses describes nothing runnable.
#[derive(Debug)]
pub enum ConfigError {
    EmptyAssistantName,
    DuplicateAssistant(String),
    EmptyInstrumentName,
    DuplicateInstrument(String),
    MixedTransport(String),
    MissingToken(String),
    EmptyAddr(String),
    UnconstrainedUsb(String),
    StrayToken(String),
    BadUniqueId { name: String, id: String },
    EmptyLeaseAddr,
}

/// What is wrong with a list of names.
pub enum NameProblem {
    /// The name at this index is blank.
    Blank(int),
    /// The name at this index occurs before.
    Repeated(int),
}

/// What is wrong with a list of names, as it is found.
enum NameFault {
    Blank(usize),
    Repeated(usize),
}

/// `fault` is the problem `p`.
spec fn is_fault(fault: Option<NameFault>, p: Option<NameProblem>) -> bool {
    match (fault, p) {
        (Some(NameFault::Blank(i)), Some(NameProblem::Blank(k))) => i == k,
        (Some(NameFault::Repeated(i)), Some(NameProblem::Repeated(k))) => i == k,
        (None, None) => true,
        _ => false,
    }
}

/// Whether `names[i]` already occurs before index `i`.
pub open spec fn occurs_before(names: Seq<Seq<char>>, i: int) -> bool {
    exists|j: int| 0 <= j < i && #[trigger] names[j] == names[i]
}

/// The first problem among `names[i..]`.
pub open spec fn name_problem(names: Seq<Seq<char>>, i: int) -> Option<NameProblem>
    decreases names.len() - i,
{
    if i >= names.len() {
        None
    } else if blank(names[i]) {
        Some(NameProblem::Blank(i))
    } else if occurs_before(names, i) {
        Some(NameProblem::Repeated(i))
    } else {
        name_problem(names, i + 1)
    }
}

fn first_name_fault(names: &Vec<String>) -> (r: Option<NameFault>)
    ensures
        is_fault(r, name_problem(texts(names@), 0)),
        r matches Some(NameFault::Repeated(i)) ==> i < names@.len(),
{
    let ghost t = texts(names@);
    let mut i: usize = 0;
    while i < names.len()
        invariant
            i <= names@.len(),
            t == texts(names@),
            name_problem(t, 0) == name_problem(t, i as int),
        decreases names.len() - i,
    {
        assert(t[i as int] == names@[i as int]@);
        if is_blank(names[i].as_str()) {
            return Some(NameFault::Blank(i));
        }
        let mut j: usize = 0;
        while j < i
            invariant
                j <= i < names@.len(),
                t == texts(names@),
                !blank(t[i as int]),
                name_problem(t, 0) == name_problem(t, i as int),
                forall|k: int| 0 <= k < j ==> #[trigger] t[k] != t[i as int],
            decreases i - j,
        {
            if same(names[j].as_str(), names[i].as_str()) {
                assert(t[j as int] == t[i as int]);
                assert(occurs_before(t, i as int));
                return Some(NameFault::Repeated(i));
            }
            assert(t[j as int] == names@[j as int]@);
            j += 1;
        }
        i += 1;
    }
    None
}

/// Every name says something, and none occurs twice.
pub open spec fn names_ok(names: Seq<Seq<char>>) -> bool {
    &&& forall|i: int| 0 <= i < names.len() ==> !blank(#[trigger] names[i])
    &&& forall|i: int, j: int|
        0 <= i < j < names.len() ==> #[trigger] names[i] != #[trigger] names[j]
}

/// `id` is sixteen hexadecimal digits.
pub open spec fn is_unique_id(id: Seq<char>) -> bool {
    id.len() == 16 && all_hex(id)
}

impl AssistantConfig {
    /// The first thing wrong with how this entry says to reach its node.
    pub open spec fn problem(self) -> Option<ConfigError> {
        let transport = match self.addr {
            Some(addr) => if self.serial is Some || self.product is Some {
                Some(ConfigError::MixedTransport(self.name))
            } else if self.token_file is None {
                Some(ConfigError::MissingToken(self.name))
            } else if blank(addr@) {
                Some(ConfigError::EmptyAddr(self.name))
            } else {
                None
            },
            None => if self.serial is None && self.product is None {
                Some(ConfigError::UnconstrainedUsb(self.name))
            } else if self.token_file is Some {
                Some(ConfigError::StrayToken(self.name))
            } else {
                None
            },
        };
        match (transport, self.unique_id) {
            (Some(e), _) => Some(e),
            (None, Some(id)) => if is_unique_id(id@) {
                None
            } else {
                Some(ConfigError::BadUniqueId { name: self.name, id })
            },
            (None, None) => None,
        }
    }

    /// One transport, complete: a network node has a real address and a
    /// token and no USB match fields; a USB node has a match field and no
    /// token. A unique id, if given, is sixteen hexadecimal digits.
    pub open spec fn reachable(self) -> bool {
        &&& match self.addr {
            Some(addr) => !blank(addr@) && self.token_file is Some && self.serial is None
                && self.product is None,
            None => (self.serial is Some || self.product is Some) && self.token_file is None,
        }
        &&& self.unique_id matches Some(id) ==> is_unique_id(id@)
    }
}

/// The first problem among the transports of `list[i..]`.
pub open spec fn transport_problem(list: Seq<AssistantConfig>, i: int) -> Option<ConfigError>
    decreases list.len() - i,
{
    if i >= list.len() {
        None
    } else if list[i].problem() is Some {
        list[i].problem()
    } else {
        transport_problem(list, i + 1)
    }
}

impl RigConfig {
    /// The assistants' names, in order.
    pub open spec fn assistant_names(self) -> Seq<Seq<char>> {
        self.assistants@.map_values(|a: AssistantConfig| a.name@)
    }

    /// The instruments' names, in order.
    pub open spec fn instrument_names(self) -> Seq<Seq<char>> {
        self.instruments@.map_values(|i: InstrumentConfig| i.name@)
    }

    /// The first problem of the config, in the order in which they are
    /// reported: names, then transports, then the lease.
    pub open spec fn problem(self) -> Option<ConfigError> {
        match name_problem(self.assistant_names(), 0) {
            Some(NameProblem::Blank(_)) => Some(ConfigError::EmptyAssistantName),
            Some(NameProblem::Repeated(i)) => Some(
                ConfigError::DuplicateAssistant(self.assistants@[i].name),
            ),
            None => match name_problem(self.instrument_names(), 0) {
                Some(NameProblem::Blank(_)) => Some(ConfigError::EmptyInstrumentName),
                Some(NameProblem::Repeated(i)) => Some(
                    ConfigError::DuplicateInstrument(self.instruments@[i].name),
                ),
                None => if transport_problem(self.assistants@, 0) is Some {
                    transport_problem(self.assistants@, 0)
                } else {
                    match self.rig.lease {
                        Some(lease) => if blank(lease.addr@) {
                            Some(ConfigError::EmptyLeaseAddr)
                        } else {
                            None
                        },
                        None => None,
                    }
                },
            },
        }
    }

    /// The config describes a rig that can be run.
    pub open spec fn runnable(self) -> bool {
        &&& names_ok(self.assistant_names())
        &&& names_ok(self.instrument_names())
        &&& forall|i: int|
            0 <= i < self.assistants@.len() ==> (#[trigger] self.assistants@[i]).reachable()
        &&& self.rig.lease matches Some(lease) ==> !blank(lease.addr@)
    }

    /// Reject configs that parse but describe nothing runnable, so a typo
    /// fails at load with a clear message instead of a confusing runtime
    /// error (or, worse, silently matching the wrong device).
    pub fn validate(&self) -> (r: Result<(), ConfigError>)
        ensures
            match self.problem() {
                None => r is Ok,
                Some(e) => r == Err::<(), ConfigError>(e),
            },
    {
        match self.assistant_name_fault() {
            Some(NameFault::Blank(_)) => return Err(ConfigError::EmptyAssistantName),
            Some(NameFault::Repeated(i)) => return Err(
                ConfigError::DuplicateAssistant(self.assistants[i].name.clone()),
            ),
            None => {},
        }
        match self.instrument_name_fault() {
            Some(NameFault::Blank(_)) => return Err(ConfigError::EmptyInstrumentName),
            Some(NameFault::Repeated(i)) => return Err(
                ConfigError::DuplicateInstrument(self.instruments[i].name.clone()),
            ),
            None => {},
        }
        self.check_transports()?;
        if let Some(lease) = &self.rig.lease {
            if is_blank(lease.addr.as_str()) {
                return Err(ConfigError::EmptyLeaseAddr);
            }
        }
        Ok(())
    }

    fn assistant_name_fault(&self) -> (r: Option<NameFault>)
        ensures
            is_fault(r, name_problem(self.assistant_names(), 0)),
            r matches Some(NameFault::Repeated(i)) ==> i < self.assistants@.len(),
    {
        let mut names: Vec<String> = Vec::new();
        let mut i: usize = 0;
        while i < self.assistants.len()
            invariant
                i <= self.assistants@.len(),
                names@.len() == i,
                forall|k: int| 0 <= k < i ==> (#[trigger] names@[k])@ == self.assistants@[k].name@,
            decreases self.assistants.len() - i,
        {
            names.push(self.assistants[i].name.clone());
            i += 1;
        }
        assert(texts(names@) =~= self.assistant_names());
        first_name_fault(&names)
    }

    fn instrument_name_fault(&self) -> (r: Option<NameFault>)
        ensures
            is_fault(r, name_problem(self.instrument_names(), 0)),
            r matches Some(NameFault::Repeated(i)) ==> i < self.instruments@.len(),
    {
        let mut names: Vec<String> = Vec::new();
        let mut i: usize = 0;
        while i < self.instruments.len()
            invariant
                i <= self.instruments@.len(),
                names@.len() == i,
                forall|k: int| 0 <= k < i ==> (#[trigger] names@[k])@ == self.instruments@[k].name@,
            decreases self.instruments.len() - i,
        {
            names.push(self.instruments[i].name.clone());
            i += 1;
        }
        assert(texts(names@) =~= self.instrument_names());
        first_name_fault(&names)
    }

    fn check_transports(&self) -> (r: Result<(), ConfigError>)
        ensures
            match transport_problem(self.assistants@, 0) {
                None => r is Ok,
                Some(e) => r == Err::<(), ConfigError>(e),
            },
    {
        let mut i: usize = 0;
        while i < self.assistants.len()
            invariant
                i <= self.assistants@.len(),
                transport_problem(self.assistants@, 0) == transport_problem(
                    self.assistants@,
                    i as int,
                ),
            decreases self.assistants.len() - i,
        {
            self.assistants[i].check()?;
            i += 1;
        }
        Ok(())
    }
}

impl AssistantConfig {
    /// Checks that this entry says how to reach its node, over one transport.
    pub fn check(&self) -> (r: Result<(), ConfigError>)
        ensures
            match self.problem() {
                None => r is Ok,
                Some(e) => r == Err::<(), ConfigError>(e),
            },
    {
        match &self.addr {
            Some(addr) => {
                // Network node: USB match fields are meaningless and a token is
                // mandatory (the handshake cannot proceed without it).
                if self.serial.is_some() || self.product.is_some() {
                    return Err(ConfigError::MixedTransport(self.name.clone()));
                }
                if self.token_file.is_none() {
                    return Err(ConfigError::MissingToken(self.name.clone()));
                }
                if is_blank(addr.as_str()) {
                    return Err(ConfigError::EmptyAddr(self.name.clone()));
                }
            },
            None => {
                // USB node: at least one of serial/product must constrain the
                // match, otherwise any attached device matches.
                if self.serial.is_none() && self.product.is_none() {
                    return Err(ConfigError::UnconstrainedUsb(self.name.clone()));
                }
                if self.token_file.is_some() {
                    return Err(ConfigError::StrayToken(self.name.clone()));
                }
            },
        }
        if let Some(id) = &self.unique_id {
            let chars = chars_of(id.as_str());
            assert(chars@.skip(0) == chars@);
            if !(chars.len() == 16 && hex_from(&chars, 0)) {
                return Err(
                    ConfigError::BadUniqueId { name: self.name.clone(), id: id.clone() },
                );
            }
        }
        Ok(())
    }
}

impl ConfigError {
    /// The text that reports the problem.
    pub open spec fn text(self) -> Seq<char> {
        match self {
            ConfigError::EmptyAssistantName => "assistant with an empty name"@,
            ConfigError::DuplicateAssistant(name) => "duplicate assistant name '"@ + name@ + "'"@,
            ConfigError::EmptyInstrumentName => "instrument with an empty name"@,
            ConfigError::DuplicateInstrument(name) => "duplicate instrument name '"@ + name@
                + "'"@,
            ConfigError::MixedTransport(name) => "assistant '"@ + name@
                + "' sets addr and USB serial/product; pick one transport"@,
            ConfigError::MissingToken(name) => "network assistant '"@ + name@
                + "' has addr but no token_file"@,
            ConfigError::EmptyAddr(name) => "assistant '"@ + name@ + "' has an empty addr"@,
            ConfigError::UnconstrainedUsb(name) => "USB assistant '"@ + name@
                + "' has neither serial nor product; that matches any attached device"@,
            ConfigError::StrayToken(name) => "USB assistant '"@ + name@
                + "' has a token_file but no addr to use it with"@,
            ConfigError::BadUniqueId { name, id } => "assistant '"@ + name@ + "' unique_id '"@
                + id@ + "' must be 16 hex digits"@,
            ConfigError::EmptyLeaseAddr => "rig lease has an empty addr"@,
        }
    }

    /// Reports the problem.
    pub fn to_string(&self) -> (r: String)
        ensures
            r@ == self.text(),
    {
        match self {
            ConfigError::EmptyAssistantName => "assistant with an empty name".to_owned(),
            ConfigError::DuplicateAssistant(name) => wrap(
                "duplicate assistant name '",
                name.as_str(),
                "'",
            ),
            ConfigError::EmptyInstrumentName => "instrument with an empty name".to_owned(),
            ConfigError::DuplicateInstrument(name) => wrap(
                "duplicate instrument name '",
                name.as_str(),
                "'",
            ),
            ConfigError::MixedTransport(name) => wrap(
                "assistant '",
                name.as_str(),
                "' sets addr and USB serial/product; pick one transport",
            ),
            ConfigError::MissingToken(name) => wrap(
                "network assistant '",
                name.as_str(),
                "' has addr but no token_file",
            ),
            ConfigError::EmptyAddr(name) => wrap(
                "assistant '",
                name.as_str(),
                "' has an empty addr",
            ),
            ConfigError::UnconstrainedUsb(name) => wrap(
                "USB assistant '",
                name.as_str(),
                "' has neither serial nor product; that matches any attached device",
            ),
            ConfigError::StrayToken(name) => wrap(
                "USB assistant '",
                name.as_str(),
                "' has a token_file but no addr to use it with",
            ),
            ConfigError::BadUniqueId { name, id } => {
                let mut out = wrap("assistant '", name.as_str(), "' unique_id '");
                out.append(id.as_str());
                out.append("' must be 16 hex digits");
                out
            },
            ConfigError::EmptyLeaseAddr => "rig lease has an empty addr".to_owned(),
        }
    }
}

/// The first index from `i` on at which `name` stands.
pub open spec fn index_of_name(names: Seq<Seq<char>>, name: Seq<char>, i: int) -> Option<int>
    decreases names.len() - i,
{
    if i >= names.len() {
        None
    } else if names[i] == name {
        Some(i)
    } else {
        index_of_name(names, name, i + 1)
    }
}

impl RigConfig {
    /// The first assistant of that name.
    pub fn assistant(&self, name: &str) -> (r: Option<&AssistantConfig>)
        ensures
            match index_of_name(self.assistant_names(), name@, 0) {
                Some(i) => r == Some(&self.assistants@[i]),
                None => r is None,
            },
    {
        let ghost names = self.assistant_names();
        let mut i: usize = 0;
        while i < self.assistants.len()
            invariant
                i <= self.assistants@.len(),
                names == self.assistant_names(),
                index_of_name(names, name@, 0) == index_of_name(names, name@, i as int),
            decreases self.assistants.len() - i,
        {
            assert(names[i as int] == self.assistants@[i as int].name@);
            if same(self.assistants[i].name.as_str(), name) {
                return Some(&self.assistants[i]);
            }
            i += 1;
        }
        None
    }

    /// The first instrument of that name.
    pub fn instrument(&self, name: &str) -> (r: Option<&InstrumentConfig>)
        ensures
            match index_of_name(self.instrument_names(), name@, 0) {
                Some(i) => r == Some(&self.instruments@[i]),
                None => r is None,
            },
    {
        let ghost names = self.instrument_names();
        let mut i: usize = 0;
        while i < self.instruments.len()
            invariant
                i <= self.instruments@.len(),
                names == self.instrument_names(),
                index_of_name(names, name@, 0) == index_of_name(names, name@, i as int),
            decreases self.instruments.len() - i,
        {
            assert(names[i as int] == self.instruments@[i as int].name@);
            if same(self.instruments[i].name.as_str(), name) {
                return Some(&self.instruments[i]);
            }
            i += 1;
        }
        None
    }
}

/// A config passes validation exactly when it describes a rig that can be
/// run: every node and instrument has a name of its own, every assistant is
/// reachable over one transport, and a lease has an address.
pub proof fn validation_accepts_exactly_runnable(config: RigConfig)
    ensures
        (config.problem() is None) == config.runnable(),
{
    lemma_names_ok(config.assistant_names(), 0);
    lemma_names_ok(config.instrument_names(), 0);
    lemma_transports_ok(config.assistants@, 0);
}

/// Among the names of a config that passed validation, a lookup is never
/// ambiguous: the name of an entry finds that entry.
pub proof fn lookup_is_unambiguous(config: RigConfig, i: int)
    requires
        config.problem() is None,
    ensures
        0 <= i < config.assistants@.len() ==> index_of_name(
            config.assistant_names(),
            config.assistants@[i].name@,
            0,
        ) == Some(i),
        0 <= i < config.instruments@.len() ==> index_of_name(
            config.instrument_names(),
            config.instruments@[i].name@,
            0,
        ) == Some(i),
{
    validation_accepts_exactly_runnable(config);
    if 0 <= i < config.assistants@.len() {
        lemma_index_of_name(config.assistant_names(), i, 0);
    }
    if 0 <= i < config.instruments@.len() {
        lemma_index_of_name(config.instrument_names(), i, 0);
    }
}

proof fn lemma_index_of_name(names: Seq<Seq<char>>, i: int, from: int)
    requires
        names_ok(names),
        0 <= from <= i < names.len(),
    ensures
        index_of_name(names, names[i], from) == Some(i),
    decreases i - from,
{
    if from < i {
        lemma_index_of_name(names, i, from + 1);
    }
}

/// Names from `i` on are distinct from all before and not blank.
spec fn names_ok_from(names: Seq<Seq<char>>, i: int) -> bool {
    forall|k: int|
        i <= k < names.len() ==> !blank(#[trigger] names[k]) && !occurs_before(names, k)
}

proof fn lemma_names_ok(names: Seq<Seq<char>>, i: int)
    requires
        0 <= i <= names.len(),
    ensures
        (name_problem(names, i) is None) == names_ok_from(names, i),
        names_ok_from(names, 0) == names_ok(names),
    decreases names.len() - i,
{
    if i < names.len() {
        lemma_names_ok(names, i + 1);
        if blank(names[i]) || occurs_before(names, i) {
            assert(!names_ok_from(names, i));
        }
    }
    if names_ok_from(names, 0) {
        assert forall|a: int, b: int| 0 <= a < b < names.len() implies #[trigger] names[a]
            != #[trigger] names[b] by {
            assert(!occurs_before(names, b));
        }
    }
}

proof fn lemma_transports_ok(list: Seq<AssistantConfig>, i: int)
    requires
        0 <= i <= list.len(),
    ensures
        (transport_problem(list, i) is None) == (forall|k: int|
            i <= k < list.len() ==> (#[trigger] list[k]).reachable()),
    decreases list.len() - i,
{
    if i < list.len() {
        lemma_transports_ok(list, i + 1);
        assert((list[i].problem() is None) == list[i].reachable());
    }
}

/// `id` is sixteen digits, each from 0 to 9 or from A to F in either case.
pub open spec fn sixteen_digits(id: Seq<char>) -> bool {
    id.len() == 16 && forall|i: int|
        0 <= i < 16 ==> ('0' <= #[trigger] id[i] <= '9') || ('a' <= id[i] <= 'f') || ('A' <= id[i]
            <= 'F')
}

/// A config passes exactly when every assistant and every instrument has a
/// name that is not blank and that no other of its kind has, every network
/// node has an address that is not blank, a token file and no USB strings,
/// every other node a USB string and no token file, every unique id is
/// sixteen hexadecimal digits, and a lease has an address that is not blank.
pub proof fn a_config_passes_when_it_can_be_run(config: RigConfig, r: Result<(), ConfigError>)
    requires
        call_ensures(RigConfig::validate, (&config,), r),
    ensures
        r is Ok == {
            &&& forall|i: int|
                0 <= i < config.assistants@.len() ==> !blank(
                    (#[trigger] config.assistants@[i]).name@,
                )
            &&& forall|i: int, j: int|
                0 <= i < j < config.assistants@.len() ==> (#[trigger] config.assistants@[i]).name@
                    != (#[trigger] config.assistants@[j]).name@
            &&& forall|i: int|
                0 <= i < config.instruments@.len() ==> !blank(
                    (#[trigger] config.instruments@[i]).name@,
                )
            &&& forall|i: int, j: int|
                0 <= i < j < config.instruments@.len() ==> (
                #[trigger] config.instruments@[i]).name@ != (
                #[trigger] config.instruments@[j]).name@
            &&& forall|i: int|
                0 <= i < config.assistants@.len() ==> {
                    let a = #[trigger] config.assistants@[i];
                    &&& a.addr is Some ==> !blank(a.addr->0@) && a.token_file is Some && a.serial
                        is None && a.product is None
                    &&& a.addr is None ==> (a.serial is Some || a.product is Some) && a.token_file
                        is None
                    &&& a.unique_id is Some ==> sixteen_digits(a.unique_id->0@)
                }
            &&& config.rig.lease is Some ==> !blank(config.rig.lease->0.addr@)
        },
{
    validation_accepts_exactly_runnable(config);
    lemma_assistant_names(config);
    lemma_instrument_names(config);
    assert forall|i: int| 0 <= i < config.assistants@.len() implies ({
        let a = #[trigger] config.assistants@[i];
        a.reachable() == {
            &&& a.addr is Some ==> !blank(a.addr->0@) && a.token_file is Some && a.serial is None
                && a.product is None
            &&& a.addr is None ==> (a.serial is Some || a.product is Some) && a.token_file is None
            &&& a.unique_id is Some ==> sixteen_digits(a.unique_id->0@)
        }
    }) by {
        let a = config.assistants@[i];
        if let Some(id) = a.unique_id {
            lemma_sixteen_digits(id@);
        }
    }
}

proof fn lemma_sixteen_digits(id: Seq<char>)
    ensures
        is_unique_id(id) == sixteen_digits(id),
{
    if id.len() == 16 && all_hex(id) {
        assert forall|i: int| 0 <= i < 16 implies ('0' <= #[trigger] id[i] <= '9') || ('a' <= id[i]
            <= 'f') || ('A' <= id[i] <= 'F') by {
            assert(crate::text::is_hex_digit(id[i]));
        }
    }
    if sixteen_digits(id) {
        assert forall|i: int| 0 <= i < id.len() implies crate::text::is_hex_digit(
            #[trigger] id[i],
        ) by {}
    }
}

proof fn lemma_assistant_names(config: RigConfig)
    ensures
        names_ok(config.assistant_names()) == {
            &&& forall|i: int|
                0 <= i < config.assistants@.len() ==> !blank(
                    (#[trigger] config.assistants@[i]).name@,
                )
            &&& forall|i: int, j: int|
                0 <= i < j < config.assistants@.len() ==> (#[trigger] config.assistants@[i]).name@
                    != (#[trigger] config.assistants@[j]).name@
        },
{
    let names = config.assistant_names();
    if names_ok(names) {
        assert forall|i: int| 0 <= i < config.assistants@.len() implies !blank(
            (#[trigger] config.assistants@[i]).name@,
        ) by {
            assert(names[i] == config.assistants@[i].name@);
        }
        assert forall|i: int, j: int| 0 <= i < j < config.assistants@.len() implies (
        #[trigger] config.assistants@[i]).name@ != (#[trigger] config.assistants@[j]).name@ by {
            assert(names[i] == config.assistants@[i].name@);
            assert(names[j] == config.assistants@[j].name@);
        }
    } else {
        if exists|i: int| 0 <= i < names.len() && blank(#[trigger] names[i]) {
            let i = choose|i: int| 0 <= i < names.len() && blank(#[trigger] names[i]);
            assert(blank(config.assistants@[i].name@));
        } else {
            let (i, j) = choose|i: int, j: int|
                0 <= i < j < names.len() && #[trigger] names[i] == #[trigger] names[j];
            assert(config.assistants@[i].name@ == config.assistants@[j].name@);
        }
    }
}

proof fn lemma_instrument_names(config: RigConfig)
    ensures
        names_ok(config.instrument_names()) == {
            &&& forall|i: int|
                0 <= i < config.instruments@.len() ==> !blank(
                    (#[trigger] config.instruments@[i]).name@,
                )
            &&& forall|i: int, j: int|
                0 <= i < j < config.instruments@.len() ==> (
                #[trigger] config.instruments@[i]).name@ != (
                #[trigger] config.instruments@[j]).name@
        },
{
    let names = config.instrument_names();
    if names_ok(names) {
        assert forall|i: int| 0 <= i < config.instruments@.len() implies !blank(
            (#[trigger] config.instruments@[i]).name@,
        ) by {
            assert(names[i] == config.instruments@[i].name@);
        }
        assert forall|i: int, j: int| 0 <= i < j < config.instruments@.len() implies (
        #[trigger] config.instruments@[i]).name@ != (#[trigger] config.instruments@[j]).name@ by {
            assert(names[i] == config.instruments@[i].name@);
            assert(names[j] == config.instruments@[j].name@);
        }
    } else {
        if exists|i: int| 0 <= i < names.len() && blank(#[trigger] names[i]) {
            let i = choose|i: int| 0 <= i < names.len() && blank(#[trigger] names[i]);
            assert(blank(config.instruments@[i].name@));
        } else {
            let (i, j) = choose|i: int, j: int|
                0 <= i < j < names.len() && #[trigger] names[i] == #[trigger] names[j];
            assert(config.instruments@[i].name@ == config.instruments@[j].name@);
        }
    }
}

/// What is reported of one entry is wrong with it, and an entry that passes is
/// in order.
pub proof fn an_entry_is_reported_for_what_is_wrong(a: AssistantConfig, r: Result<(), ConfigError>)
    requires
        call_ensures(AssistantConfig::check, (&a,), r),
    ensures
        match r {
            Ok(_) => {
                &&& a.addr is Some ==> !blank(a.addr->0@) && a.token_file is Some && a.serial
                    is None && a.product is None
                &&& a.addr is None ==> (a.serial is Some || a.product is Some) && a.token_file
                    is None
                &&& a.unique_id is Some ==> sixteen_digits(a.unique_id->0@)
            },
            Err(e) => is_wrong_with(a, e),
        },
{
    if let Some(id) = a.unique_id {
        lemma_sixteen_digits(id@);
    }
}

/// `e` is the first thing wrong with the entry `a`, and names it: too many
/// transports or none, then its token, then its address, then its unique id.
pub open spec fn is_wrong_with(a: AssistantConfig, e: ConfigError) -> bool {
    match e {
        ConfigError::MixedTransport(name) => name@ == a.name@ && a.addr is Some && (a.serial is Some
            || a.product is Some),
        ConfigError::MissingToken(name) => name@ == a.name@ && a.addr is Some && a.serial is None
            && a.product is None && a.token_file is None,
        ConfigError::EmptyAddr(name) => name@ == a.name@ && a.addr is Some && a.serial is None
            && a.product is None && a.token_file is Some && blank(a.addr->0@),
        ConfigError::UnconstrainedUsb(name) => name@ == a.name@ && a.addr is None && a.serial
            is None && a.product is None,
        ConfigError::StrayToken(name) => name@ == a.name@ && a.addr is None && (a.serial is Some
            || a.product is Some) && a.token_file is Some,
        ConfigError::BadUniqueId { name, id } => {
            &&& name@ == a.name@
            &&& a.unique_id is Some && a.unique_id->0@ == id@ && !sixteen_digits(id@)
            &&& a.addr is Some ==> !blank(a.addr->0@) && a.token_file is Some && a.serial is None
                && a.product is None
            &&& a.addr is None ==> (a.serial is Some || a.product is Some) && a.token_file is None
        },
        _ => false,
    }
}

/// What is reported of a config is true of it, and is the first thing that
/// is: names come first, those of assistants before those of instruments and
/// each in order, then the first entry that is out of order, and the lease
/// last.
pub proof fn a_config_is_reported_for_what_is_wrong(
    config: RigConfig,
    r: Result<(), ConfigError>,
    e: ConfigError,
)
    requires
        call_ensures(RigConfig::validate, (&config,), r),
        r == Err::<(), ConfigError>(e),
    ensures
        match e {
            ConfigError::EmptyAssistantName => exists|i: int|
                0 <= i < config.assistants@.len() && blank(
                    (#[trigger] config.assistants@[i]).name@,
                ) && names_ok(config.assistant_names().take(i)),
            ConfigError::DuplicateAssistant(name) => exists|i: int, j: int|
                0 <= i < j < config.assistants@.len() && (#[trigger] config.assistants@[i]).name@
                    == name@ && (#[trigger] config.assistants@[j]).name@ == name@ && names_ok(
                    config.assistant_names().take(j),
                ),
            ConfigError::EmptyInstrumentName => names_ok(config.assistant_names()) && exists|
                i: int,
            |
                0 <= i < config.instruments@.len() && blank(
                    (#[trigger] config.instruments@[i]).name@,
                ) && names_ok(config.instrument_names().take(i)),
            ConfigError::DuplicateInstrument(name) => names_ok(config.assistant_names()) && exists|
                i: int,
                j: int,
            |
                0 <= i < j < config.instruments@.len() && (
                #[trigger] config.instruments@[i]).name@ == name@ && (
                #[trigger] config.instruments@[j]).name@ == name@ && names_ok(
                    config.instrument_names().take(j),
                ),
            ConfigError::EmptyLeaseAddr => {
                &&& names_ok(config.assistant_names())
                &&& names_ok(config.instrument_names())
                &&& forall|i: int|
                    0 <= i < config.assistants@.len() ==> (
                    #[trigger] config.assistants@[i]).reachable()
                &&& config.rig.lease is Some && blank(config.rig.lease->0.addr@)
            },
            _ => {
                &&& names_ok(config.assistant_names())
                &&& names_ok(config.instrument_names())
                &&& exists|i: int|
                    0 <= i < config.assistants@.len() && is_wrong_with(
                        #[trigger] config.assistants@[i],
                        e,
                    ) && forall|k: int|
                        0 <= k < i ==> (#[trigger] config.assistants@[k]).reachable()
            },
        },
{
    lemma_names_ok(config.assistant_names(), 0);
    lemma_names_ok(config.instrument_names(), 0);
    lemma_transports_ok(config.assistants@, 0);
    lemma_name_problem(config.assistant_names(), 0);
    lemma_name_problem(config.instrument_names(), 0);
    match name_problem(config.assistant_names(), 0) {
        Some(NameProblem::Blank(i)) => {
            lemma_fine_names(config.assistant_names(), i);
            assert(config.assistant_names()[i] == config.assistants@[i].name@);
        },
        Some(NameProblem::Repeated(j)) => {
            let names = config.assistant_names();
            lemma_fine_names(names, j);
            let i = choose|i: int| 0 <= i < j && #[trigger] names[i] == names[j];
            assert(names[i] == config.assistants@[i].name@);
            assert(names[j] == config.assistants@[j].name@);
        },
        None => match name_problem(config.instrument_names(), 0) {
            Some(NameProblem::Blank(i)) => {
                lemma_fine_names(config.instrument_names(), i);
                assert(config.instrument_names()[i] == config.instruments@[i].name@);
            },
            Some(NameProblem::Repeated(j)) => {
                let names = config.instrument_names();
                lemma_fine_names(names, j);
                let i = choose|i: int| 0 <= i < j && #[trigger] names[i] == names[j];
                assert(names[i] == config.instruments@[i].name@);
                assert(names[j] == config.instruments@[j].name@);
            },
            None => {
                if transport_problem(config.assistants@, 0) is Some {
                    let i = lemma_transport_problem(config.assistants@, 0);
                    if let Some(id) = config.assistants@[i].unique_id {
                        lemma_sixteen_digits(id@);
                    }
                    assert(is_wrong_with(config.assistants@[i], e));
                }
            },
        },
    }
}

proof fn lemma_name_problem(names: Seq<Seq<char>>, i: int)
    requires
        0 <= i,
    ensures
        match name_problem(names, i) {
            Some(NameProblem::Blank(k)) => i <= k < names.len() && blank(names[k]) && fine_between(
                names,
                i,
                k,
            ),
            Some(NameProblem::Repeated(k)) => i <= k < names.len() && occurs_before(names, k)
                && fine_between(names, i, k),
            None => true,
        },
    decreases names.len() - i,
{
    if i < names.len() && !blank(names[i]) && !occurs_before(names, i) {
        lemma_name_problem(names, i + 1);
    }
}

/// The names from `i` up to `k` are not blank and do not occur before.
spec fn fine_between(names: Seq<Seq<char>>, i: int, k: int) -> bool {
    forall|j: int| i <= j < k ==> !blank(#[trigger] names[j]) && !occurs_before(names, j)
}

proof fn lemma_fine_names(names: Seq<Seq<char>>, k: int)
    requires
        0 <= k <= names.len(),
        fine_between(names, 0, k),
    ensures
        names_ok(names.take(k)),
{
    let t = names.take(k);
    assert forall|i: int| 0 <= i < t.len() implies !blank(#[trigger] t[i]) by {
        assert(t[i] == names[i]);
    }
    assert forall|i: int, j: int| 0 <= i < j < t.len() implies #[trigger] t[i] != #[trigger] t[j] by {
        assert(t[i] == names[i] && t[j] == names[j]);
        assert(!occurs_before(names, j));
    }
}

proof fn lemma_transport_problem(list: Seq<AssistantConfig>, i: int) -> (k: int)
    requires
        0 <= i,
        transport_problem(list, i) is Some,
    ensures
        i <= k < list.len(),
        list[k].problem() == transport_problem(list, i),
        forall|j: int| i <= j < k ==> (#[trigger] list[j]).reachable(),
    decreases list.len() - i,
{
    if list[i].problem() is Some {
        i
    } else {
        assert(list[i].reachable());
        lemma_transport_problem(list, i + 1)
    }
}

/// A lookup finds the first entry of exactly that name, and nothing only when
/// there is none.
pub proof fn a_lookup_finds_the_name(
    config: RigConfig,
    name: &str,
    assistant: Option<&AssistantConfig>,
    instrument: Option<&InstrumentConfig>,
)
    requires
        call_ensures(RigConfig::assistant, (&config, name), assistant),
        call_ensures(RigConfig::instrument, (&config, name), instrument),
    ensures
        match assistant {
            Some(a) => exists|i: int|
                0 <= i < config.assistants@.len() && #[trigger] config.assistants@[i] == *a
                    && a.name@ == name@ && forall|j: int|
                    0 <= j < i ==> (#[trigger] config.assistants@[j]).name@ != name@,
            None => forall|i: int|
                0 <= i < config.assistants@.len() ==> (#[trigger] config.assistants@[i]).name@
                    != name@,
        },
        match instrument {
            Some(a) => exists|i: int|
                0 <= i < config.instruments@.len() && #[trigger] config.instruments@[i] == *a
                    && a.name@ == name@ && forall|j: int|
                    0 <= j < i ==> (#[trigger] config.instruments@[j]).name@ != name@,
            None => forall|i: int|
                0 <= i < config.instruments@.len() ==> (#[trigger] config.instruments@[i]).name@
                    != name@,
        },
{
    let names = config.assistant_names();
    lemma_lookup(names, name@, 0);
    match index_of_name(names, name@, 0) {
        Some(i) => {
            assert(names[i] == config.assistants@[i].name@);
            assert forall|j: int| 0 <= j < i implies (#[trigger] config.assistants@[j]).name@
                != name@ by {
                assert(names[j] == config.assistants@[j].name@);
            }
        },
        None => {
            assert forall|i: int| 0 <= i < config.assistants@.len() implies (
            #[trigger] config.assistants@[i]).name@ != name@ by {
                assert(names[i] == config.assistants@[i].name@);
            }
        },
    }
    let names = config.instrument_names();
    lemma_lookup(names, name@, 0);
    match index_of_name(names, name@, 0) {
        Some(i) => {
            assert(names[i] == config.instruments@[i].name@);
            assert forall|j: int| 0 <= j < i implies (#[trigger] config.instruments@[j]).name@
                != name@ by {
                assert(names[j] == config.instruments@[j].name@);
            }
        },
        None => {
            assert forall|i: int| 0 <= i < config.instruments@.len() implies (
            #[trigger] config.instruments@[i]).name@ != name@ by {
                assert(names[i] == config.instruments@[i].name@);
            }
        },
    }
}

/// Where a name is first found, if it is.
pub proof fn lemma_lookup(names: Seq<Seq<char>>, name: Seq<char>, i: int)
    requires
        0 <= i,
    ensures
        match index_of_name(names, name, i) {
            Some(k) => i <= k < names.len() && names[k] == name && forall|j: int|
                i <= j < k ==> #[trigger] names[j] != name,
            None => forall|j: int| i <= j < names.len() ==> #[trigger] names[j] != name,
        },
    decreases names.len() - i,
{
    if i < names.len() && names[i] != name {
        lemma_lookup(names, name, i + 1);
    }
}

/// An entry is of a network node exactly when it has an address.
pub proof fn an_address_makes_a_network_node(a: AssistantConfig, r: bool)
    requires
        call_ensures(AssistantConfig::is_network, (&a,), r),
    ensures
        r == a.addr is Some,
{
}

/// What is reported of an entry names it.
pub proof fn a_config_report_names_the_entry(e: ConfigError, r: String)
    requires
        call_ensures(ConfigError::to_string, (&e,), r),
    ensures
        match e {
            ConfigError::DuplicateAssistant(name) => mentions(r@, name@),
            ConfigError::DuplicateInstrument(name) => mentions(r@, name@),
            ConfigError::MixedTransport(name) => mentions(r@, name@),
            ConfigError::MissingToken(name) => mentions(r@, name@),
            ConfigError::EmptyAddr(name) => mentions(r@, name@),
            ConfigError::UnconstrainedUsb(name) => mentions(r@, name@),
            ConfigError::StrayToken(name) => mentions(r@, name@),
            ConfigError::BadUniqueId { name, id } => r@ == "assistant '"@ + name@
                + "' unique_id '"@ + id@ + "' must be 16 hex digits"@,
            _ => r@.len() > 0,
        },
{
    broadcast use crate::text::group_mentions;

    reveal_strlit("assistant with an empty name");
    reveal_strlit("instrument with an empty name");
    reveal_strlit("rig lease has an empty addr");
}

/// A config made by default describes a rig with nothing on it, which can be
/// run.
pub proof fn an_empty_config_can_be_run(config: RigConfig, r: Result<(), ConfigError>)
    requires
        call_ensures(<RigConfig as Default>::default, (), config),
        call_ensures(RigConfig::validate, (&config,), r),
    ensures
        config.rig.name is None && config.rig.lock_file is None && config.rig.lease is None,
        config.target is None,
        config.assistants@.len() == 0,
        config.instruments@.len() == 0,
        r is Ok,
{
}

} // verus!
