//! The rules of the reference assistant: which pins it has, who owns them,
//! and what each request does and answers.
//!
//! The board itself is the caller's: these functions say which pin to drive
//! and what to reply.

use crate::icd::{
    AckResult, CaptureChunkResult, CaptureControl, CaptureRead, CaptureStatusResult, Chunk,
    ChunkResult, Error, GpioConfig, GpioRead, GpioSet, I2cTransaction, Identity, Level, NodeRole,
    PinEvent, PinMode, PinMonitor, Pull, SpiTransfer, UartConfig, PROTOCOL_VERSION,
};
use crate::text::{hex, hex16, spelled};
use vstd::prelude::*;
use vstd::string::*;
use vstd::utf8::*;

verus! {

/// Pins that requests can name: 0..=7 stand for GPIO 2..=9.
pub const NUM_PINS: usize = 8;

/// The index of a pin that the board has.
pub open spec fn index_of(pin: u8) -> Option<usize> {
    if pin < NUM_PINS {
        Some(pin as usize)
    } else {
        None
    }
}

/// The index of a pin, if the board has it.
pub fn pin_index(banc_pin: u8) -> (r: Option<usize>)
    ensures
        r == index_of(banc_pin),
{
    let idx: usize = banc_pin as usize;
    if idx < NUM_PINS {
        Some(idx)
    } else {
        None
    }
}

/// Which pins are free, and which have a stop signal pending. A pin that is
/// not free is owned by a monitor.
pub struct PinTable {
    pub free: [bool; 8],
    pub stop: [bool; 8],
}

/// The contents of a [`PinTable`].
pub struct Pins {
    pub free: Seq<bool>,
    pub stop: Seq<bool>,
}

impl View for PinTable {
    type V = Pins;

    open spec fn view(&self) -> Pins {
        Pins { free: self.free@, stop: self.stop@ }
    }
}

impl Pins {
    /// A table has an entry for every pin.
    pub open spec fn wf(self) -> bool {
        self.free.len() == NUM_PINS && self.stop.len() == NUM_PINS
    }

    /// What to do about a request to monitor a pin.
    pub open spec fn start(self, rqst: PinMonitor) -> MonitorStart {
        match index_of(rqst.pin) {
            None => MonitorStart::Refuse(Error::Unsupported),
            Some(i) => if !rqst.enable {
                MonitorStart::SignalStop(i)
            } else if !self.free[i as int] {
                MonitorStart::Refuse(Error::Busy)
            } else {
                MonitorStart::Watch(i)
            },
        }
    }

    /// The table after a request to monitor a pin: stopping leaves a signal,
    /// and starting takes the pin and forgets a signal from before.
    pub open spec fn after(self, rqst: PinMonitor) -> Pins {
        match self.start(rqst) {
            MonitorStart::Refuse(_) => self,
            MonitorStart::SignalStop(i) => Pins { stop: self.stop.update(i as int, true), ..self },
            MonitorStart::Watch(i) => Pins {
                free: self.free.update(i as int, false),
                stop: self.stop.update(i as int, false),
            },
        }
    }

    /// The table once the monitor of a pin handed it back.
    pub open spec fn returned(self, i: usize) -> Pins {
        Pins { free: self.free.update(i as int, true), ..self }
    }

    /// The table once the signal for a pin was taken up.
    pub open spec fn heeded(self, i: usize) -> Pins {
        Pins { stop: self.stop.update(i as int, false), ..self }
    }
}

/// The pin that a request may use: the board has it, and no monitor owns it.
pub open spec fn usable(free: Seq<bool>, pin: u8) -> Result<usize, Error> {
    match index_of(pin) {
        None => Err(Error::Unsupported),
        Some(i) => if free[i as int] {
            Ok(i)
        } else {
            Err(Error::Busy)
        },
    }
}

/// How to set up a pin.
#[derive(Debug, Clone, Copy, PartialEq, Eq, Structural)]
pub struct PinSetup {
    pub index: usize,
    pub pull: Pull,
    pub output: bool,
}

/// What to do about a request to monitor a pin.
#[derive(Debug, Clone, Copy, PartialEq, Eq, Structural)]
pub enum MonitorStart {
    /// Reply with this and be done.
    Refuse(Error),
    /// Wake the pin's monitor, if there is one, for the stop signal now
    /// pending, and acknowledge.
    SignalStop(usize),
    /// The pin is ours: acknowledge, and watch.
    Watch(usize),
}

/// What a monitor waits for.
#[derive(Debug, Clone, Copy, PartialEq, Eq, Structural)]
pub enum MonitorEvent {
    Stop,
    /// An edge, with the level and time read after waking up.
    Edge { is_high: bool, timestamp_us: u64 },
}

/// What a monitor does next.
#[derive(Debug, Clone, Copy, PartialEq, Eq, Structural)]
pub enum MonitorStep {
    /// Hand the pin back and end.
    End,
    /// Publish the event under this sequence number.
    Publish { seq: u16, event: PinEvent },
}

/// A running monitor.
pub struct Monitor {
    pub pin: u8,
    /// Sequence number of the next event.
    pub seq: u16,
}

/// The level of a line.
pub open spec fn level_of(is_high: bool) -> Level {
    if is_high {
        Level::High
    } else {
        Level::Low
    }
}

fn level(is_high: bool) -> (r: Level)
    ensures
        r == level_of(is_high),
{
    if is_high {
        Level::High
    } else {
        Level::Low
    }
}

impl PinTable {
    /// A table with all pins free and no signal pending.
    pub fn new() -> (r: Self)
        ensures
            r@.wf(),
            forall|i: int| 0 <= i < NUM_PINS ==> #[trigger] r@.free[i],
            forall|i: int| 0 <= i < NUM_PINS ==> !#[trigger] r@.stop[i],
    {
        PinTable {
            free: [true, true, true, true, true, true, true, true],
            stop: [false, false, false, false, false, false, false, false],
        }
    }

    fn claimable(&self, pin: u8) -> (r: Result<usize, Error>)
        ensures
            r == usable(self@.free, pin),
    {
        match pin_index(pin) {
            None => Err(Error::Unsupported),
            Some(i) => if self.free[i] {
                Ok(i)
            } else {
                Err(Error::Busy)
            },
        }
    }

    /// How to set up the pin that `rqst` names.
    pub fn gpio_config_handler(&self, rqst: GpioConfig) -> (r: Result<PinSetup, Error>)
        ensures
            r == match usable(self@.free, rqst.pin) {
                Err(e) => Err::<PinSetup, Error>(e),
                Ok(index) => Ok(
                    match rqst.mode {
                        PinMode::Input(pull) => PinSetup { index, pull, output: false },
                        PinMode::Output => PinSetup { index, pull: Pull::Floating, output: true },
                    },
                ),
            },
    {
        let index: usize = match self.claimable(rqst.pin) {
            Ok(i) => i,
            Err(e) => return Err(e),
        };
        Ok(
            match rqst.mode {
                PinMode::Input(pull) => PinSetup { index, pull, output: false },
                PinMode::Output => PinSetup { index, pull: Pull::Floating, output: true },
            },
        )
    }

    /// Which pin to drive, and whether high.
    pub fn gpio_set_handler(&self, rqst: GpioSet) -> (r: Result<(usize, bool), Error>)
        ensures
            r == match usable(self@.free, rqst.pin) {
                Err(e) => Err::<(usize, bool), Error>(e),
                Ok(index) => Ok((index, rqst.level == Level::High)),
            },
    {
        match self.claimable(rqst.pin) {
            Ok(index) => Ok((index, rqst.level == Level::High)),
            Err(e) => Err(e),
        }
    }

    /// Which pin to read.
    pub fn gpio_read_pin(&self, rqst: GpioRead) -> (r: Result<usize, Error>)
        ensures
            r == usable(self@.free, rqst.pin),
    {
        self.claimable(rqst.pin)
    }

    /// The answer to a read, once the line was looked at.
    pub fn gpio_read_handler(&self, rqst: GpioRead, is_high: bool) -> (r: Result<Level, Error>)
        ensures
            r == match usable(self@.free, rqst.pin) {
                Err(e) => Err::<Level, Error>(e),
                Ok(_) => Ok(level_of(is_high)),
            },
    {
        match self.claimable(rqst.pin) {
            Ok(_) => Ok(level(is_high)),
            Err(e) => Err(e),
        }
    }

    /// What to do about a request to monitor a pin: stopping always
    /// succeeds, starting takes the pin out of the table.
    pub fn pin_monitor_handler(&mut self, rqst: PinMonitor) -> (r: MonitorStart)
        ensures
            r == old(self)@.start(rqst),
            final(self)@ == old(self)@.after(rqst),
    {
        let idx: usize = match pin_index(rqst.pin) {
            None => return MonitorStart::Refuse(Error::Unsupported),
            Some(i) => i,
        };
        if !rqst.enable {
            self.stop[idx] = true;
            return MonitorStart::SignalStop(idx);
        }
        if !self.free[idx] {
            return MonitorStart::Refuse(Error::Busy);
        }
        self.free[idx] = false;
        self.stop[idx] = false;
        MonitorStart::Watch(idx)
    }

    /// Whether the monitor of a pin that was woken has to stop; the signal
    /// is then no longer pending.
    pub fn take_stop(&mut self, idx: usize) -> (r: bool)
        requires
            idx < NUM_PINS,
        ensures
            r == old(self)@.stop[idx as int],
            final(self)@ == old(self)@.heeded(idx),
    {
        let stop = self.stop[idx];
        self.stop[idx] = false;
        stop
    }

    /// Goes on once the acknowledgement of a new monitor was sent or not: a
    /// monitor whose host is gone does not start, and its pin is free again.
    pub fn pin_monitor_replied(&mut self, idx: usize, pin: u8, sent: bool) -> (r: Option<Monitor>)
        requires
            idx < NUM_PINS,
        ensures
            sent ==> (r matches Some(m) && m.pin == pin && m.seq == 0) && final(self)@ == old(
                self,
            )@,
            !sent ==> r is None && final(self)@ == old(self)@.returned(idx),
    {
        if sent {
            Some(Monitor::new(pin))
        } else {
            self.hand_back(idx);
            None
        }
    }

    /// Takes the pin of a monitor that ends back into the table.
    pub fn hand_back(&mut self, idx: usize)
        requires
            idx < NUM_PINS,
        ensures
            final(self)@ == old(self)@.returned(idx),
    {
        self.free[idx] = true;
    }
}

impl Monitor {
    /// A monitor that has published nothing yet.
    pub fn new(pin: u8) -> (r: Self)
        ensures
            r.pin == pin,
            r.seq == 0,
    {
        Monitor { pin, seq: 0 }
    }

    /// What to do about what woke the monitor. Sequence numbers count the
    /// published events and wrap around.
    pub fn step(&mut self, event: MonitorEvent) -> (r: MonitorStep)
        ensures
            final(self).pin == old(self).pin,
            match event {
                MonitorEvent::Stop => r == MonitorStep::End && final(self).seq == old(self).seq,
                MonitorEvent::Edge { is_high, timestamp_us } => {
                    &&& r == (MonitorStep::Publish {
                        seq: old(self).seq,
                        event: PinEvent {
                            pin: old(self).pin,
                            level: level_of(is_high),
                            timestamp_us,
                        },
                    })
                    &&& final(self).seq == (if old(self).seq == u16::MAX {
                        0
                    } else {
                        old(self).seq + 1
                    })
                },
            },
    {
        match event {
            MonitorEvent::Stop => MonitorStep::End,
            MonitorEvent::Edge { is_high, timestamp_us } => {
                let seq = self.seq;
                self.seq = seq.wrapping_add(1);
                MonitorStep::Publish {
                    seq,
                    event: PinEvent { pin: self.pin, level: level(is_high), timestamp_us },
                }
            },
        }
    }
}

/// The text in a `heapless::String<32>`.
pub uninterp spec fn text32(s: heapless::String<32>) -> Seq<char>;

/// The text in a `heapless::String<16>`.
pub uninterp spec fn text16(s: heapless::String<16>) -> Seq<char>;

/// `heapless::String::<32>::try_from` holds the text it is given, and fails
/// exactly when that has more than 32 bytes.
#[verifier::external_body]
fn fixed32(s: &str) -> (r: Option<heapless::String<32>>)
    ensures
        r is Some == (encode_utf8(s@).len() <= 32),
        r is Some ==> text32(r.unwrap()) == s@,
{
    heapless::String::<32>::try_from(s).ok()
}

/// `heapless::String::<16>::try_from` holds the text it is given, and fails
/// exactly when that has more than 16 bytes.
#[verifier::external_body]
fn fixed16(s: &str) -> (r: Option<heapless::String<16>>)
    ensures
        r is Some == (encode_utf8(s@).len() <= 16),
        r is Some ==> text16(r.unwrap()) == s@,
{
    heapless::String::<16>::try_from(s).ok()
}

/// `heapless::String::<16>::new` makes an empty string.
#[verifier::external_body]
fn empty16() -> (r: heapless::String<16>)
    ensures
        text16(r) == Seq::<char>::empty(),
{
    heapless::String::<16>::new()
}

/// The firmware's name.
pub const FW_NAME: &'static str = "banc-assistant";

/// Who the assistant says it is: a version text that does not fit is left
/// out.
pub fn identify_handler(unique_id: u64, version: &str) -> (r: Identity)
    ensures
        r.role == NodeRole::Assistant,
        r.protocol_version == PROTOCOL_VERSION,
        r.unique_id == unique_id,
        text32(r.fw_name) == FW_NAME@,
        text16(r.fw_version) == if encode_utf8(version@).len() <= 16 {
            version@
        } else {
            Seq::<char>::empty()
        },
{
    proof {
        reveal_strlit("banc-assistant");
        is_ascii_chars_encode_utf8(FW_NAME@);
    }
    let fw_version = match fixed16(version) {
        Some(v) => v,
        None => empty16(),
    };
    Identity {
        role: NodeRole::Assistant,
        protocol_version: PROTOCOL_VERSION,
        unique_id,
        fw_name: fixed32(FW_NAME).unwrap(),
        fw_version,
    }
}

/// How the assistant presents itself on USB.
#[derive(Debug)]
pub struct UsbConfig {
    pub vendor_id: u16,
    pub product_id: u16,
    pub manufacturer: String,
    pub product: String,
    /// The unique id, so hosts can route before connecting.
    pub serial_number: String,
    pub device_class: u8,
    pub device_sub_class: u8,
    pub device_protocol: u8,
    pub composite_with_iads: bool,
}

/// The USB descriptor values of the device with that unique id.
pub fn usb_config(unique_id: u64) -> (r: UsbConfig)
    ensures
        r.vendor_id == 0x16c0,
        r.product_id == 0x27dd,
        r.manufacturer@ == "banc"@,
        r.product@ == "banc-assistant"@,
        r.serial_number@ == hex(unique_id as nat, 16),
        r.device_class == 0xEF,
        r.device_sub_class == 0x02,
        r.device_protocol == 0x01,
        r.composite_with_iads,
{
    UsbConfig {
        vendor_id: 0x16c0,
        product_id: 0x27dd,
        manufacturer: "banc".to_owned(),
        product: "banc-assistant".to_owned(),
        serial_number: hex16(unique_id),
        // Required for windows compatibility.
        device_class: 0xEF,
        device_sub_class: 0x02,
        device_protocol: 0x01,
        composite_with_iads: true,
    }
}

/// UART is not wired up on this board.
pub fn uart_config_handler(_rqst: UartConfig) -> (r: AckResult)
    ensures
        r == Err::<(), Error>(Error::Unsupported),
{
    Err(Error::Unsupported)
}

/// UART is not wired up on this board.
pub fn uart_tx_handler(_rqst: Chunk) -> (r: AckResult)
    ensures
        r == Err::<(), Error>(Error::Unsupported),
{
    Err(Error::Unsupported)
}

/// SPI is not wired up on this board.
pub fn spi_transfer_handler(_rqst: SpiTransfer) -> (r: ChunkResult)
    ensures
        r == Err::<Chunk, Error>(Error::Unsupported),
{
    Err(Error::Unsupported)
}

/// I2C is not wired up on this board.
pub fn i2c_transaction_handler(_rqst: I2cTransaction) -> (r: ChunkResult)
    ensures
        r == Err::<Chunk, Error>(Error::Unsupported),
{
    Err(Error::Unsupported)
}

/// Edge capture is not wired up on this board.
pub fn capture_control_handler(_rqst: CaptureControl) -> (r: CaptureStatusResult)
    ensures
        r matches Err(e) && e == Error::Unsupported,
{
    Err(Error::Unsupported)
}

/// Edge capture is not wired up on this board.
pub fn capture_read_handler(_rqst: CaptureRead) -> (r: CaptureChunkResult)
    ensures
        r matches Err(e) && e == Error::Unsupported,
{
    Err(Error::Unsupported)
}

/// While a monitor owns a pin every GPIO request on it is answered `Busy`,
/// and so is a second monitor; all other pins are as they were. Once the pin
/// is handed back every pin is as free as it was before.
pub proof fn monitored_pin_is_busy(pins: Pins, pin: u8, other: u8)
    requires
        pins.wf(),
        usable(pins.free, pin) is Ok,
    ensures
        ({
            let watch = PinMonitor { pin, enable: true };
            let during = pins.after(watch);
            &&& pins.start(watch) == MonitorStart::Watch(pin as usize)
            &&& usable(during.free, pin) == Err::<usize, Error>(Error::Busy)
            &&& during.start(watch) == MonitorStart::Refuse(Error::Busy)
            &&& other != pin ==> usable(during.free, other) == usable(pins.free, other)
            &&& during.returned(pin as usize).free == pins.free
        }),
{
    let during = pins.after(PinMonitor { pin, enable: true });
    assert(during.returned(pin as usize).free =~= pins.free);
}

/// The table after a run of monitor requests.
pub open spec fn after_requests(pins: Pins, run: Seq<PinMonitor>) -> Pins
    decreases run.len(),
{
    if run.len() == 0 {
        pins
    } else {
        after_requests(pins, run.drop_last()).after(run.last())
    }
}

/// A monitor is stopped exactly by a disable for its own pin made while it
/// runs: whatever was asked before it started, no signal is pending for it;
/// and whatever is asked from then on, one is pending exactly when a disable
/// for its pin was among it. Until it hands the pin back it keeps it.
pub proof fn only_a_disable_stops_a_monitor(
    pins: Pins,
    before: Seq<PinMonitor>,
    pin: u8,
    since: Seq<PinMonitor>,
)
    requires
        pins.wf(),
        after_requests(pins, before).start(PinMonitor { pin, enable: true }) is Watch,
    ensures
        ({
            let started = after_requests(pins, before).after(PinMonitor { pin, enable: true });
            let now = after_requests(started, since);
            &&& !started.stop[pin as int]
            &&& now.stop[pin as int] == (exists|i: int|
                0 <= i < since.len() && (#[trigger] since[i]).pin == pin && !since[i].enable)
            &&& !now.free[pin as int]
        }),
{
    lemma_requests_wf(pins, before);
    let started = after_requests(pins, before).after(PinMonitor { pin, enable: true });
    lemma_signal(started, pin, since);
}

proof fn lemma_requests_wf(pins: Pins, run: Seq<PinMonitor>)
    requires
        pins.wf(),
    ensures
        after_requests(pins, run).wf(),
    decreases run.len(),
{
    if run.len() > 0 {
        lemma_requests_wf(pins, run.drop_last());
    }
}

proof fn lemma_signal(started: Pins, pin: u8, since: Seq<PinMonitor>)
    requires
        started.wf(),
        pin < NUM_PINS,
        !started.stop[pin as int],
        !started.free[pin as int],
    ensures
        after_requests(started, since).wf(),
        !after_requests(started, since).free[pin as int],
        after_requests(started, since).stop[pin as int] == (exists|i: int|
            0 <= i < since.len() && (#[trigger] since[i]).pin == pin && !since[i].enable),
    decreases since.len(),
{
    if since.len() > 0 {
        let prev = since.drop_last();
        lemma_signal(started, pin, prev);
        let last = since.len() - 1;
        if exists|i: int| 0 <= i < prev.len() && (#[trigger] prev[i]).pin == pin && !prev[i].enable {
            let i = choose|i: int|
                0 <= i < prev.len() && (#[trigger] prev[i]).pin == pin && !prev[i].enable;
            assert(since[i] == prev[i]);
        }
        if exists|i: int|
            0 <= i < since.len() && (#[trigger] since[i]).pin == pin && !since[i].enable {
            let i = choose|i: int|
                0 <= i < since.len() && (#[trigger] since[i]).pin == pin && !since[i].enable;
            if i < last {
                assert(prev[i] == since[i]);
            }
        }
        assert(since[last] == since.last());
    }
}

/// The board has eight pins, and each is its own index.
pub proof fn the_board_has_eight_pins(pin: u8, r: Option<usize>, table: PinTable)
    requires
        call_ensures(pin_index, (pin,), r),
        call_ensures(PinTable::new, (), table),
    ensures
        pin < 8 ==> (r matches Some(i) && i == pin),
        pin >= 8 ==> r is None,
        forall|i: int| 0 <= i < 8 ==> #[trigger] table.free@[i],
        forall|i: int| 0 <= i < 8 ==> !#[trigger] table.stop@[i],
{
    assert forall|i: int| 0 <= i < 8 implies #[trigger] table.free@[i] by {
        assert(table@.free[i]);
    }
    assert forall|i: int| 0 <= i < 8 implies !#[trigger] table.stop@[i] by {
        assert(!table@.stop[i]);
    }
}

/// A request on a pin that the board lacks is unsupported, one on a pin that
/// a monitor owns is busy, and any other is carried out on exactly that pin:
/// it is set up as asked, driven high exactly when that is asked, and read as
/// it stands.
pub proof fn requests_reach_their_pin(
    table: PinTable,
    config: GpioConfig,
    setup: Result<PinSetup, Error>,
    set: GpioSet,
    driven: Result<(usize, bool), Error>,
    read: GpioRead,
    looked: Result<usize, Error>,
    is_high: bool,
    level: Result<Level, Error>,
)
    requires
        call_ensures(PinTable::gpio_config_handler, (&table, config), setup),
        call_ensures(PinTable::gpio_set_handler, (&table, set), driven),
        call_ensures(PinTable::gpio_read_pin, (&table, read), looked),
        call_ensures(PinTable::gpio_read_handler, (&table, read, is_high), level),
    ensures
        config.pin >= 8 ==> (setup matches Err(Error::Unsupported)),
        config.pin < 8 && !table.free@[config.pin as int] ==> (setup matches Err(Error::Busy)),
        config.pin < 8 && table.free@[config.pin as int] ==> (setup matches Ok(s) && s.index
            == config.pin && s.output == config.mode is Output && (config.mode matches
            PinMode::Input(pull) ==> s.pull == pull) && (config.mode is Output ==> s.pull
            is Floating)),
        set.pin >= 8 ==> (driven matches Err(Error::Unsupported)),
        set.pin < 8 && !table.free@[set.pin as int] ==> (driven matches Err(Error::Busy)),
        set.pin < 8 && table.free@[set.pin as int] ==> (driven matches Ok((i, high)) && i == set.pin
            && high == set.level is High),
        read.pin >= 8 ==> (looked matches Err(Error::Unsupported)) && (level matches Err(
            Error::Unsupported,
        )),
        read.pin < 8 && !table.free@[read.pin as int] ==> (looked matches Err(Error::Busy)) && (
        level matches Err(Error::Busy)),
        read.pin < 8 && table.free@[read.pin as int] ==> (looked matches Ok(i) && i == read.pin) && (
        level matches Ok(l) && l is High == is_high),
{
}

/// A monitor takes its pin, if the board has it and it is free, and no other:
/// all other pins and signals stay as they were. Asking it to stop leaves a
/// signal for that pin and changes nothing else.
pub proof fn a_monitor_takes_its_pin(table: &mut PinTable, rqst: PinMonitor, r: MonitorStart)
    requires
        call_ensures(PinTable::pin_monitor_handler, (table, rqst), r),
    ensures
        ({
            let p = rqst.pin as int;
            let started = p < 8 && rqst.enable && old(table).free@[p];
            let stopped = p < 8 && !rqst.enable;
            &&& p >= 8 ==> (r matches MonitorStart::Refuse(Error::Unsupported))
            &&& started ==> (r matches MonitorStart::Watch(i) && i == p)
            &&& stopped ==> (r matches MonitorStart::SignalStop(i) && i == p)
            &&& p < 8 && !started && !stopped ==> (r matches MonitorStart::Refuse(Error::Busy))
            &&& forall|k: int|
                0 <= k < 8 ==> #[trigger] final(table).free@[k] == (old(table).free@[k] && !(started
                    && k == p))
            &&& forall|k: int|
                0 <= k < 8 ==> #[trigger] final(table).stop@[k] == ((old(table).stop@[k] || (stopped
                    && k == p)) && !(started && k == p))
        }),
{
    let f = final(table)@;
    let o = old(table)@;
    assert(f.free == final(table).free@ && f.stop == final(table).stop@);
    assert(o.free == old(table).free@ && o.stop == old(table).stop@);
}

/// From taking a pin to handing it back: while a monitor owns a pin, every
/// request on it is busy, and so is a second monitor; once it is handed back
/// the pin is usable again. A monitor whose host was gone before it started
/// hands it back at once.
pub proof fn a_monitored_pin_is_busy_until_handed_back(
    taken: &mut PinTable,
    pin: u8,
    started: MonitorStart,
    during: PinTable,
    set: GpioSet,
    driven: Result<(usize, bool), Error>,
    again: &mut PinTable,
    second: MonitorStart,
    back: &mut PinTable,
    after: PinTable,
    then: Result<(usize, bool), Error>,
    replied: &mut PinTable,
    sent: bool,
    monitor: Option<Monitor>,
)
    requires
        call_ensures(
            PinTable::pin_monitor_handler,
            (taken, PinMonitor { pin, enable: true }),
            started,
        ),
        started is Watch,
        during == *final(taken),
        set.pin == pin,
        call_ensures(PinTable::gpio_set_handler, (&during, set), driven),
        *old(again) == during,
        call_ensures(
            PinTable::pin_monitor_handler,
            (again, PinMonitor { pin, enable: true }),
            second,
        ),
        *old(back) == during,
        call_ensures(PinTable::hand_back, (back, started->Watch_0), ()),
        after == *final(back),
        call_ensures(PinTable::gpio_set_handler, (&after, set), then),
        *old(replied) == during,
        call_ensures(
            PinTable::pin_monitor_replied,
            (replied, started->Watch_0, pin, sent),
            monitor,
        ),
    ensures
        driven matches Err(Error::Busy),
        second matches MonitorStart::Refuse(Error::Busy),
        then is Ok,
        monitor is Some == sent,
        monitor matches Some(m) ==> m.pin == pin && m.seq == 0,
        final(replied).free@[pin as int] == !sent,
{
    assert(during@.free == during.free@);
    assert(after@.free == after.free@);
    assert(final(back)@.free == final(back).free@);
    assert(final(replied)@.free == final(replied).free@);
    assert(old(replied)@.free == old(replied).free@);
    assert(old(taken)@.free.len() == 8);
    assert(old(back)@.free.len() == 8);
}

/// A stop signal is taken up once: it was pending, and then is not, and
/// nothing else changes.
pub proof fn a_signal_is_taken_up_once(table: &mut PinTable, idx: usize, r: bool)
    requires
        idx < 8,
        call_ensures(PinTable::take_stop, (table, idx), r),
    ensures
        r == old(table).stop@[idx as int],
        !final(table).stop@[idx as int],
        forall|k: int|
            0 <= k < 8 && k != idx ==> #[trigger] final(table).stop@[k] == old(table).stop@[k],
        final(table).free@ == old(table).free@,
{
    assert(final(table)@.stop == final(table).stop@ && old(table)@.stop == old(table).stop@);
    assert(final(table)@.free == final(table).free@ && old(table)@.free == old(table).free@);
}

/// Every edge is published once, under the next number, with the level and
/// time seen, for the monitor's own pin; numbers go up by one and from 65535
/// back to zero. A stop publishes nothing.
pub proof fn edges_are_numbered_in_order(
    fresh: Monitor,
    pin: u8,
    monitor: &mut Monitor,
    event: MonitorEvent,
    r: MonitorStep,
)
    requires
        call_ensures(Monitor::new, (pin,), fresh),
        call_ensures(Monitor::step, (monitor, event), r),
    ensures
        fresh.pin == pin && fresh.seq == 0,
        final(monitor).pin == old(monitor).pin,
        event is Stop ==> r is End && final(monitor).seq == old(monitor).seq,
        event matches MonitorEvent::Edge { is_high, timestamp_us } ==> {
            &&& r matches MonitorStep::Publish { seq, event: e } && seq == old(monitor).seq && e.pin
                == old(monitor).pin && e.level is High == is_high && e.timestamp_us
                == timestamp_us
            &&& old(monitor).seq < 65535 ==> final(monitor).seq == old(monitor).seq + 1
            &&& old(monitor).seq == 65535 ==> final(monitor).seq == 0
        },
{
}

/// The assistant says who it is, on USB and when asked: the same device by
/// its id, which the serial string spells in sixteen hexadecimal digits.
pub proof fn the_assistant_says_who_it_is(
    unique_id: u64,
    version: &str,
    identity: Identity,
    usb: UsbConfig,
)
    requires
        call_ensures(identify_handler, (unique_id, version), identity),
        call_ensures(usb_config, (unique_id,), usb),
    ensures
        identity.role is Assistant,
        identity.protocol_version == 0,
        identity.unique_id == unique_id,
        text32(identity.fw_name) == "banc-assistant"@,
        encode_utf8(version@).len() <= 16 ==> text16(identity.fw_version) == version@,
        encode_utf8(version@).len() > 16 ==> text16(identity.fw_version).len() == 0,
        usb.serial_number@.len() == 16,
        spelled(usb.serial_number@, 16) == unique_id,
        usb.vendor_id == 0x16c0 && usb.product_id == 0x27dd,
        usb.manufacturer@ == "banc"@,
        usb.product@ == "banc-assistant"@,
        usb.device_class == 0xef && usb.device_sub_class == 2 && usb.device_protocol == 1,
        usb.composite_with_iads,
{
    crate::text::lemma_hex_spelled(unique_id as nat, 16);
    reveal_with_fuel(crate::text::power16, 17);
}

/// What is not wired up on this board is always answered as unsupported.
pub proof fn what_is_not_wired_is_unsupported(
    uart: UartConfig,
    tx: Chunk,
    spi: SpiTransfer,
    i2c: I2cTransaction,
    control: CaptureControl,
    read: CaptureRead,
    a: AckResult,
    b: AckResult,
    c: ChunkResult,
    d: ChunkResult,
    e: CaptureStatusResult,
    f: CaptureChunkResult,
)
    requires
        call_ensures(uart_config_handler, (uart,), a),
        call_ensures(uart_tx_handler, (tx,), b),
        call_ensures(spi_transfer_handler, (spi,), c),
        call_ensures(i2c_transaction_handler, (i2c,), d),
        call_ensures(capture_control_handler, (control,), e),
        call_ensures(capture_read_handler, (read,), f),
    ensures
        a matches Err(Error::Unsupported),
        b matches Err(Error::Unsupported),
        c matches Err(Error::Unsupported),
        d matches Err(Error::Unsupported),
        e matches Err(Error::Unsupported),
        f matches Err(Error::Unsupported),
{
}

} // verus!
