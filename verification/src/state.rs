//! The controller's state: commanded settings, live measurements, and the rules that change them.
use vstd::prelude::*;

use crate::json::{
    double_number, int_entry, integer_number, json_entry, new_object, no_entries, number_entry,
    object_entries, object_text, object_value, print_object, put_int, put_null,
    put_optional_number, put_text, put_whole_real, whole_entry, JsonEntry,
};

verus! {

/// Version of the status schema, published as `v`.
pub const STATUS_VERSION: i32 = 1;

/// Whether a state change should wake the MQTT status publisher.
#[derive(Debug, Clone, Copy, PartialEq, Eq, Structural)]
pub enum PublishHint {
    /// Publish soon: a commanded or measured value other than RPM changed.
    Immediate,
    /// The next heartbeat, or the next immediate publish, carries the value.
    Silent,
}

/// Whether the status publisher is to be woken for `hint`.
pub fn wakes_publisher(hint: PublishHint) -> (wake: bool)
    ensures
        wake == (hint == PublishHint::Immediate),
{
    hint == PublishHint::Immediate
}

/// Commands of local control tasks to the supervisor.
#[derive(Debug, Clone, Copy, PartialEq, Eq, Structural)]
pub enum Command {
    Ping,
    Shutdown,
}

/// Largest `spd` demand where the configuration gives none.
pub const DEFAULT_SPD_MAX: u16 = 35;

/// The largest `spd` demand: `spd_max`, or the default where it is zero.
pub open spec fn spd_limit(spd_max: u16) -> u16 {
    if spd_max == 0 {
        DEFAULT_SPD_MAX
    } else {
        spd_max
    }
}

/// The speed word of a demand: 0 below 1, the demand up to the limit, the limit above it.
pub open spec fn speed_word(spd: int, spd_max: u16) -> u16 {
    if spd < 1 {
        0
    } else if spd <= spd_limit(spd_max) {
        spd as u16
    } else {
        spd_limit(spd_max)
    }
}

/// Encodes an MQTT `spd` demand into the commanded speed word.
///
/// Below 1 it is 0 (off), up to `spd_max` it is the demand, and above that it is `spd_max`.
#[must_use]
pub fn encode_spd(spd: i32, spd_max: u16) -> (word: u16)
    ensures
        word == speed_word(spd as int, spd_max),
{
    let max: u16 = if spd_max == 0 {
        DEFAULT_SPD_MAX
    } else {
        spd_max
    };
    if spd < 1 {
        0
    } else if spd <= max as i32 {
        spd as u16
    } else {
        max
    }
}

/// The demand that a speed word stands for, at most the limit.
pub open spec fn word_demand(word: u16, spd_max: u16) -> int {
    if word <= spd_limit(spd_max) {
        word as int
    } else {
        spd_limit(spd_max) as int
    }
}

/// A demand between 0 and the limit comes back out of its speed word, and no speed word is above
/// the limit.
pub proof fn law_speed_word_round_trip(spd: int, spd_max: u16)
    ensures
        speed_word(spd, spd_max) <= spd_limit(spd_max),
        0 <= spd <= spd_limit(spd_max) ==> word_demand(speed_word(spd, spd_max), spd_max) == spd,
{
}

/// The demand that a speed word stands for, at most the limit.
#[must_use]
pub fn decode_spd(word: u16, spd_max: u16) -> (spd: i32)
    ensures
        spd == word_demand(word, spd_max),
{
    let max: u16 = if spd_max == 0 {
        DEFAULT_SPD_MAX
    } else {
        spd_max
    };
    if word <= max {
        word as i32
    } else {
        max as i32
    }
}

/// The speed word on the 0 to 35 scale for a persisted word.
pub open spec fn migrated_word(word: u16) -> u16 {
    if word <= 35 {
        word
    } else if word / 655 <= 35 {
        word / 655
    } else {
        35
    }
}

/// A migrated word is on the 0 to 35 scale, and migrating it again changes nothing.
pub proof fn law_migration_settles(word: u16)
    ensures
        migrated_word(word) <= 35,
        migrated_word(migrated_word(word)) == migrated_word(word),
        word <= 35 ==> migrated_word(word) == word,
{
}

/// Brings a persisted speed word onto the 0 to 35 scale.
///
/// A word up to 35 is kept. A larger one carries the demand times 655: it is divided by 655, and
/// clamped to 35.
#[must_use]
pub fn migrate_spd(word: u16) -> (migrated: u16)
    ensures
        migrated == migrated_word(word),
{
    if word > 35 {
        let scaled: u16 = word / 655;
        if scaled > 35 {
            35
        } else {
            scaled
        }
    } else {
        word
    }
}

/// Whether relay `channel` (0 for `r1` to 7 for `r8`) is on in a packed relay byte.
pub open spec fn relay_on(byte: u8, channel: int) -> bool {
    byte & (1u8 << (channel as u8)) != 0
}

proof fn lemma_set_relay(byte: u8, i: u8, j: u8)
    requires
        i < 8,
        j < 8,
    ensures
        (byte | (1u8 << i)) & (1u8 << j) != 0 <==> (i == j || byte & (1u8 << j) != 0),
{
    assert((byte | (1u8 << i)) & (1u8 << j) != 0 <==> (i == j || byte & (1u8 << j) != 0))
        by (bit_vector)
        requires
            i < 8,
            j < 8,
    ;
}

/// A packed relay byte is determined by its eight relays.
pub proof fn lemma_relay_bytes_equal(a: u8, b: u8)
    requires
        forall|i: int| 0 <= i < 8 ==> relay_on(a, i) == relay_on(b, i),
    ensures
        a == b,
{
    assert(relay_on(a, 0) == relay_on(b, 0));
    assert(relay_on(a, 1) == relay_on(b, 1));
    assert(relay_on(a, 2) == relay_on(b, 2));
    assert(relay_on(a, 3) == relay_on(b, 3));
    assert(relay_on(a, 4) == relay_on(b, 4));
    assert(relay_on(a, 5) == relay_on(b, 5));
    assert(relay_on(a, 6) == relay_on(b, 6));
    assert(relay_on(a, 7) == relay_on(b, 7));
    assert(a == b) by (bit_vector)
        requires
            (a & (1u8 << 0u8) != 0) == (b & (1u8 << 0u8) != 0),
            (a & (1u8 << 1u8) != 0) == (b & (1u8 << 1u8) != 0),
            (a & (1u8 << 2u8) != 0) == (b & (1u8 << 2u8) != 0),
            (a & (1u8 << 3u8) != 0) == (b & (1u8 << 3u8) != 0),
            (a & (1u8 << 4u8) != 0) == (b & (1u8 << 4u8) != 0),
            (a & (1u8 << 5u8) != 0) == (b & (1u8 << 5u8) != 0),
            (a & (1u8 << 6u8) != 0) == (b & (1u8 << 6u8) != 0),
            (a & (1u8 << 7u8) != 0) == (b & (1u8 << 7u8) != 0),
    ;
}

/// The byte with `value` where `on`, else 0.
pub open spec fn bit_where(on: bool, value: u8) -> u8 {
    if on {
        value
    } else {
        0
    }
}

/// The packed relay byte of eight relays.
pub open spec fn packed_relays(bits: Seq<bool>) -> u8 {
    bit_where(bits[0], 1) | bit_where(bits[1], 2) | bit_where(bits[2], 4) | bit_where(bits[3], 8)
        | bit_where(bits[4], 16) | bit_where(bits[5], 32) | bit_where(bits[6], 64) | bit_where(
        bits[7],
        128,
    )
}

/// The relays of a packed relay byte.
pub open spec fn unpacked_relays(byte: u8) -> Seq<bool> {
    Seq::new(8, |i: int| relay_on(byte, i))
}

/// Packing keeps every relay.
pub proof fn lemma_packed_relays(bits: Seq<bool>)
    requires
        bits.len() == 8,
    ensures
        forall|i: int| 0 <= i < 8 ==> #[trigger] relay_on(packed_relays(bits), i) == bits[i],
        unpacked_relays(packed_relays(bits)) == bits,
{
    let b0 = bit_where(bits[0], 1);
    let b1 = bit_where(bits[1], 2);
    let b2 = bit_where(bits[2], 4);
    let b3 = bit_where(bits[3], 8);
    let b4 = bit_where(bits[4], 16);
    let b5 = bit_where(bits[5], 32);
    let b6 = bit_where(bits[6], 64);
    let b7 = bit_where(bits[7], 128);
    let byte = packed_relays(bits);
    assert(byte == b0 | b1 | b2 | b3 | b4 | b5 | b6 | b7);
    assert((byte & (1u8 << 0u8) != 0) == (b0 != 0) && (byte & (1u8 << 1u8) != 0) == (b1 != 0) && (
    byte & (1u8 << 2u8) != 0) == (b2 != 0) && (byte & (1u8 << 3u8) != 0) == (b3 != 0) && (byte & (
    1u8 << 4u8) != 0) == (b4 != 0) && (byte & (1u8 << 5u8) != 0) == (b5 != 0) && (byte & (1u8
        << 6u8) != 0) == (b6 != 0) && (byte & (1u8 << 7u8) != 0) == (b7 != 0)) by (bit_vector)
        requires
            byte == b0 | b1 | b2 | b3 | b4 | b5 | b6 | b7,
            b0 == 0 || b0 == 1,
            b1 == 0 || b1 == 2,
            b2 == 0 || b2 == 4,
            b3 == 0 || b3 == 8,
            b4 == 0 || b4 == 16,
            b5 == 0 || b5 == 32,
            b6 == 0 || b6 == 64,
            b7 == 0 || b7 == 128,
    ;
    assert forall|i: int| 0 <= i < 8 implies #[trigger] relay_on(byte, i) == bits[i] by {
        assert(i == 0 || i == 1 || i == 2 || i == 3 || i == 4 || i == 5 || i == 6 || i == 7);
    }
    assert(unpacked_relays(byte) =~= bits);
}

/// Unpacking a relay byte and packing it again gives the same byte.
pub proof fn law_pack_after_unpack(byte: u8)
    ensures
        packed_relays(unpacked_relays(byte)) == byte,
{
    lemma_packed_relays(unpacked_relays(byte));
    lemma_relay_bytes_equal(packed_relays(unpacked_relays(byte)), byte);
}

/// Packs relays `r1` (lowest bit) to `r8` (highest bit) into a byte.
#[must_use]
pub fn pack_relays(bits: [bool; 8]) -> (byte: u8)
    ensures
        byte == packed_relays(bits@),
        forall|i: int| 0 <= i < 8 ==> #[trigger] relay_on(byte, i) == bits@[i],
{
    let mut byte: u8 = 0;
    let mut i: usize = 0;
    assert(forall|j: u8| j < 8 ==> 0u8 & #[trigger] (1u8 << j) == 0) by (bit_vector);
    while i < 8
        invariant
            i <= 8,
            forall|j: int| 0 <= j < i ==> #[trigger] relay_on(byte, j) == bits@[j],
            forall|j: int| i <= j < 8 ==> !#[trigger] relay_on(byte, j),
        decreases 8 - i,
    {
        let ghost before = byte;
        if bits[i] {
            byte = byte | (1u8 << (i as u8));
            assert forall|j: int| 0 <= j < 8 implies #[trigger] relay_on(byte, j) == (j == i
                || relay_on(before, j)) by {
                lemma_set_relay(before, i as u8, j as u8);
            }
        }
        i = i + 1;
    }
    proof {
        lemma_packed_relays(bits@);
        lemma_relay_bytes_equal(byte, packed_relays(bits@));
    }
    byte
}

/// The relays `r1` to `r8` of a packed relay byte.
#[must_use]
pub fn unpack_relays(byte: u8) -> (bits: [bool; 8])
    ensures
        bits@ == unpacked_relays(byte),
{
    let bits = [
        byte & (1u8 << 0u8) != 0,
        byte & (1u8 << 1u8) != 0,
        byte & (1u8 << 2u8) != 0,
        byte & (1u8 << 3u8) != 0,
        byte & (1u8 << 4u8) != 0,
        byte & (1u8 << 5u8) != 0,
        byte & (1u8 << 6u8) != 0,
        byte & (1u8 << 7u8) != 0,
    ];
    assert(bits@ =~= unpacked_relays(byte));
    bits
}

/// Commanded settings, which survive a restart.
#[derive(Debug, Clone, Copy, PartialEq, Eq, Structural)]
pub struct CommandedState {
    /// 0 for pool, any other value for spa.
    pub mode: i32,
    /// Speed demand, 0 to 35.
    pub set_speed: u16,
    pub set_spa_temp: i32,
    pub set_pool_temp: i32,
    /// Relays packed as `r1` in the lowest bit to `r8` in the highest.
    pub relays: u8,
}

impl Default for CommandedState {
    fn default() -> (s: Self)
        ensures
            s == (CommandedState {
                mode: 0,
                set_speed: 0,
                set_spa_temp: 104,
                set_pool_temp: 70,
                relays: 0,
            }),
    {
        CommandedState { mode: 0, set_speed: 0, set_spa_temp: 104, set_pool_temp: 70, relays: 0 }
    }
}

/// Live measurements, which do not survive a restart.
#[derive(Debug, Clone, PartialEq)]
pub struct MeasuredState {
    pub rpm: u16,
    pub watt: u16,
    /// Air temperature as the pump reports it, in whole degrees.
    pub air_temp: u16,
    /// Spa water temperature in degrees Fahrenheit, as the JSON number that is published.
    /// `None` while it is invalid, settling or without a sensor.
    pub spa_temp: Option<serde_json::Number>,
    /// Pool water temperature, like `spa_temp`.
    pub pool_temp: Option<serde_json::Number>,
    /// Relay feedback from the bus, `None` until the first successful read.
    pub relay_status: Option<u8>,
    pub ip: String,
}

impl Default for MeasuredState {
    fn default() -> (s: Self)
        ensures
            s.rpm == 0,
            s.watt == 0,
            s.air_temp == 0,
            s.spa_temp is None,
            s.pool_temp is None,
            s.relay_status is None,
            s.ip@ == Seq::<char>::empty(),
    {
        MeasuredState {
            rpm: 0,
            watt: 0,
            air_temp: 0,
            spa_temp: None,
            pool_temp: None,
            relay_status: None,
            ip: String::new(),
        }
    }
}

/// The hydraulic loop that the shared water sensor samples, which the divert valve selects.
#[derive(Debug, Clone, Copy, PartialEq, Eq, Structural)]
pub enum ActiveLoop {
    Pool,
    Spa,
}

/// The relay channel of a divert valve given by its number from 1, clamped to the eight channels.
pub open spec fn divert_channel(divert_relay: u8) -> int {
    if divert_relay == 0 {
        0
    } else if divert_relay > 8 {
        7
    } else {
        divert_relay - 1
    }
}

/// The loop that relays `relays` select: spa where the divert valve is on, else pool.
pub open spec fn loop_of_relays(relays: u8, divert_relay: u8) -> ActiveLoop {
    if relay_on(relays, divert_channel(divert_relay)) {
        ActiveLoop::Spa
    } else {
        ActiveLoop::Pool
    }
}

impl ActiveLoop {
    /// The loop that the divert valve `divert_relay` (numbered from 1) selects: spa where it is on.
    #[must_use]
    pub fn from_relays(relays: u8, divert_relay: u8) -> (active: Self)
        ensures
            active == loop_of_relays(relays, divert_relay),
    {
        let bits = unpack_relays(relays);
        let below: u8 = divert_relay.saturating_sub(1);
        let idx: usize = if below > 7 {
            7
        } else {
            below as usize
        };
        assert(bits@[idx as int] == relay_on(relays, idx as int));
        if bits[idx] {
            ActiveLoop::Spa
        } else {
            ActiveLoop::Pool
        }
    }

    /// The loop that mode `m` asks for: pool for 0, else spa.
    #[must_use]
    pub fn from_mode(mode: i32) -> (active: Self)
        ensures
            active == if mode == 0 {
                ActiveLoop::Pool
            } else {
                ActiveLoop::Spa
            },
    {
        if mode == 0 {
            ActiveLoop::Pool
        } else {
            ActiveLoop::Spa
        }
    }
}

/// The state of the controller.
#[derive(Debug, Clone)]
pub struct PoolState {
    pub commanded: CommandedState,
    pub measured: MeasuredState,
    /// The pump has yet to be told the commanded speed.
    pub update_pump: bool,
    /// The relay board has yet to be told the commanded relays.
    pub update_relays: bool,
    /// Water has yet to circulate after a change of the divert valve.
    pub water_temp_settling: bool,
}

impl Default for PoolState {
    fn default() -> (s: Self)
        ensures
            s.commanded == (CommandedState {
                mode: 0,
                set_speed: 0,
                set_spa_temp: 104,
                set_pool_temp: 70,
                relays: 0,
            }),
            s.measured.rpm == 0,
            s.measured.watt == 0,
            s.measured.air_temp == 0,
            s.measured.spa_temp is None,
            s.measured.pool_temp is None,
            s.measured.relay_status is None,
            s.measured.ip@ == Seq::<char>::empty(),
            !s.update_pump,
            !s.update_relays,
            !s.water_temp_settling,
    {
        PoolState {
            commanded: CommandedState::default(),
            measured: MeasuredState::default(),
            update_pump: false,
            update_relays: false,
            water_temp_settling: false,
        }
    }
}

impl PoolState {
    /// The relays that decide which loop is active: the feedback where there is any, else the
    /// commanded ones.
    pub open spec fn effective_relays(self) -> u8 {
        match self.measured.relay_status {
            Some(byte) => byte,
            None => self.commanded.relays,
        }
    }

    /// The water temperature of a loop.
    pub open spec fn water_temp(self, loop_: ActiveLoop) -> Option<serde_json::Number> {
        match loop_ {
            ActiveLoop::Spa => self.measured.spa_temp,
            ActiveLoop::Pool => self.measured.pool_temp,
        }
    }

    /// The state with the water temperature of one loop replaced.
    pub open spec fn with_water_temp(
        self,
        loop_: ActiveLoop,
        temp: Option<serde_json::Number>,
    ) -> PoolState {
        PoolState {
            measured: match loop_ {
                ActiveLoop::Spa => MeasuredState { spa_temp: temp, ..self.measured },
                ActiveLoop::Pool => MeasuredState { pool_temp: temp, ..self.measured },
            },
            ..self
        }
    }

    /// Records the pump speed. RPM is noisy, so this never wakes the publisher.
    pub fn set_rpm(&mut self, rpm: u16, hint: PublishHint) -> (wake: PublishHint)
        ensures
            *final(self) == (PoolState {
                measured: MeasuredState { rpm, ..old(self).measured },
                ..*old(self)
            }),
            wake == PublishHint::Silent,
    {
        self.measured.rpm = rpm;
        PublishHint::Silent
    }

    /// Records the pump power. The caller decides whether it is worth a publish.
    pub fn set_watt(&mut self, watt: u16, hint: PublishHint) -> (wake: PublishHint)
        ensures
            *final(self) == (PoolState {
                measured: MeasuredState { watt, ..old(self).measured },
                ..*old(self)
            }),
            wake == hint,
    {
        self.measured.watt = watt;
        hint
    }

    /// The loop that the divert valve selects, by relay feedback where there is any, else by the
    /// commanded relays.
    #[must_use]
    pub fn active_loop(&self, divert_relay: u8) -> (active: ActiveLoop)
        ensures
            active == loop_of_relays(self.effective_relays(), divert_relay),
    {
        let relays: u8 = match self.measured.relay_status {
            Some(byte) => byte,
            None => self.commanded.relays,
        };
        ActiveLoop::from_relays(relays, divert_relay)
    }

    /// The water temperature of a loop, or `None` where there is no valid reading.
    #[must_use]
    pub fn active_water_temp(&self, loop_: ActiveLoop) -> (temp: Option<&serde_json::Number>)
        ensures
            match temp {
                Some(number) => self.water_temp(loop_) == Some(*number),
                None => self.water_temp(loop_) is None,
            },
    {
        match loop_ {
            ActiveLoop::Spa => self.measured.spa_temp.as_ref(),
            ActiveLoop::Pool => self.measured.pool_temp.as_ref(),
        }
    }

    /// Whether heat may be turned on for a loop: its reading is valid, and the water has settled.
    pub open spec fn heat_allowed(self, loop_: ActiveLoop) -> bool {
        !self.water_temp_settling && self.water_temp(loop_) is Some
    }

    /// Whether heat may be turned on for a loop: its reading is valid, and the water has settled.
    #[must_use]
    pub fn water_temp_ok(&self, loop_: ActiveLoop) -> (ok: bool)
        ensures
            ok == self.heat_allowed(loop_),
    {
        !self.water_temp_settling && self.active_water_temp(loop_).is_some()
    }

    /// Starts settling after a change of the active loop: the reading of the new loop is dropped,
    /// and that of the other loop stays.
    pub fn on_active_loop_changed(&mut self, new_loop: ActiveLoop) -> (wake: PublishHint)
        ensures
            *final(self) == (PoolState {
                water_temp_settling: true,
                ..old(self).with_water_temp(new_loop, None)
            }),
            wake == PublishHint::Immediate,
    {
        self.water_temp_settling = true;
        match new_loop {
            ActiveLoop::Spa => {
                self.measured.spa_temp = None;
            },
            ActiveLoop::Pool => {
                self.measured.pool_temp = None;
            },
        }
        PublishHint::Immediate
    }

    /// Records a reading for a loop, unless the water is settling.
    ///
    /// `moved` says whether the reading differs from the one before it by at least the publish
    /// threshold. The publisher is woken for a first reading, and for one that moved.
    pub fn set_water_temp_f(
        &mut self,
        loop_: ActiveLoop,
        temp_f: serde_json::Number,
        moved: bool,
    ) -> (wake: PublishHint)
        ensures
            old(self).water_temp_settling ==> *final(self) == *old(self) && wake
                == PublishHint::Silent,
            !old(self).water_temp_settling ==> *final(self) == old(self).with_water_temp(
                loop_,
                Some(temp_f),
            ),
            !old(self).water_temp_settling ==> (wake == PublishHint::Immediate <==> (old(
                self,
            ).water_temp(loop_) is None || moved)),
    {
        if self.water_temp_settling {
            return PublishHint::Silent;
        }
        let first = self.active_water_temp(loop_).is_none();
        match loop_ {
            ActiveLoop::Spa => {
                self.measured.spa_temp = Some(temp_f);
            },
            ActiveLoop::Pool => {
                self.measured.pool_temp = Some(temp_f);
            },
        }
        if first || moved {
            PublishHint::Immediate
        } else {
            PublishHint::Silent
        }
    }

    /// Drops the reading of a loop after a sensor fault. Wakes the publisher if there was one.
    pub fn clear_water_temp(&mut self, loop_: ActiveLoop) -> (wake: PublishHint)
        ensures
            *final(self) == old(self).with_water_temp(loop_, None),
            wake == PublishHint::Immediate <==> old(self).water_temp(loop_) is Some,
    {
        let had = self.active_water_temp(loop_).is_some();
        match loop_ {
            ActiveLoop::Spa => {
                self.measured.spa_temp = None;
            },
            ActiveLoop::Pool => {
                self.measured.pool_temp = None;
            },
        }
        if had {
            PublishHint::Immediate
        } else {
            PublishHint::Silent
        }
    }

    /// Ends settling, so that the next good reading is recorded.
    pub fn end_settling(&mut self)
        ensures
            *final(self) == (PoolState { water_temp_settling: false, ..*old(self) }),
    {
        self.water_temp_settling = false;
    }
}

/// The JSON key of a relay channel: `r1` for channel 0 to `r8` for channel 7.
pub open spec fn relay_key(channel: int) -> Seq<char> {
    if channel == 0 {
        "r1"@
    } else if channel == 1 {
        "r2"@
    } else if channel == 2 {
        "r3"@
    } else if channel == 3 {
        "r4"@
    } else if channel == 4 {
        "r5"@
    } else if channel == 5 {
        "r6"@
    } else if channel == 6 {
        "r7"@
    } else {
        "r8"@
    }
}

/// The JSON key of a relay channel.
pub fn relay_name(channel: usize) -> (name: &'static str)
    requires
        channel < 8,
    ensures
        name@ == relay_key(channel as int),
{
    match channel {
        0 => "r1",
        1 => "r2",
        2 => "r3",
        3 => "r4",
        4 => "r5",
        5 => "r6",
        6 => "r7",
        _ => "r8",
    }
}

/// The status member of a relay: 1 or 0 by feedback, `null` before the first feedback.
pub open spec fn relay_entry(feedback: Option<u8>, channel: int) -> JsonEntry {
    match feedback {
        Some(byte) => int_entry(
            if relay_on(byte, channel) {
                1
            } else {
                0
            },
        ),
        None => JsonEntry::Null,
    }
}

/// `entries` with the members of the first `count` relays.
pub open spec fn with_relay_entries(
    entries: Map<Seq<char>, JsonEntry>,
    feedback: Option<u8>,
    count: int,
) -> Map<Seq<char>, JsonEntry>
    decreases count,
{
    if count <= 0 {
        entries
    } else {
        with_relay_entries(entries, feedback, count - 1).insert(
            relay_key(count - 1),
            relay_entry(feedback, count - 1),
        )
    }
}

impl PoolState {
    /// The members of the published status.
    pub open spec fn status_entries(self) -> Map<Seq<char>, JsonEntry> {
        with_relay_entries(
            no_entries().insert("ip"@, JsonEntry::Text(self.measured.ip@)).insert(
                "rpm"@,
                int_entry(self.measured.rpm as int),
            ).insert("spd"@, int_entry(self.commanded.set_speed as int)).insert(
                "watt"@,
                int_entry(self.measured.watt as int),
            ).insert("m"@, int_entry(self.commanded.mode as int)).insert(
                "st"@,
                number_entry(self.measured.spa_temp),
            ).insert("pt"@, number_entry(self.measured.pool_temp)).insert(
                "sst"@,
                int_entry(self.commanded.set_spa_temp as int),
            ).insert("spt"@, int_entry(self.commanded.set_pool_temp as int)).insert(
                "v"@,
                int_entry(STATUS_VERSION as int),
            ).insert("at"@, whole_entry(self.measured.air_temp as int)),
            self.measured.relay_status,
            8,
        )
    }

    /// Builds the published status object.
    ///
    /// `r1` to `r8` come from the relay feedback alone, and are `null` before the first feedback.
    #[must_use]
    pub fn to_status_json(&self) -> (status: serde_json::Value)
        ensures
            json_entry(status) == JsonEntry::Object(self.status_entries()),
    {
        let mut map = new_object();
        put_text(&mut map, "ip", self.measured.ip.as_str());
        put_int(&mut map, "rpm", self.measured.rpm as i64);
        put_int(&mut map, "spd", self.commanded.set_speed as i64);
        put_int(&mut map, "watt", self.measured.watt as i64);
        put_int(&mut map, "m", self.commanded.mode as i64);
        put_optional_number(&mut map, "st", &self.measured.spa_temp);
        put_optional_number(&mut map, "pt", &self.measured.pool_temp);
        put_int(&mut map, "sst", self.commanded.set_spa_temp as i64);
        put_int(&mut map, "spt", self.commanded.set_pool_temp as i64);
        put_int(&mut map, "v", STATUS_VERSION as i64);
        put_whole_real(&mut map, "at", self.measured.air_temp);
        let ghost base = object_entries(map);
        let mut i: usize = 0;
        while i < 8
            invariant
                i <= 8,
                object_entries(map) == with_relay_entries(
                    base,
                    self.measured.relay_status,
                    i as int,
                ),
            decreases 8 - i,
        {
            match self.measured.relay_status {
                Some(byte) => {
                    let relays = unpack_relays(byte);
                    assert(relays@[i as int] == relay_on(byte, i as int));
                    let level: i64 = if relays[i] {
                        1
                    } else {
                        0
                    };
                    put_int(&mut map, relay_name(i), level);
                },
                None => {
                    put_null(&mut map, relay_name(i));
                },
            }
            i = i + 1;
        }
        object_value(map)
    }

    /// The published status as compact JSON text.
    pub fn status_payload(&self) -> (payload: Result<String, serde_json::Error>)
        ensures
            match payload {
                Ok(text) => object_text(self.status_entries()) == Some(text@),
                Err(_) => object_text(self.status_entries()) is None,
            },
    {
        print_object(&self.to_status_json())
    }
}

/// A number that tells the status keys apart: their length and three of their characters.
spec fn key_code(key: Seq<char>) -> int {
    key.len() * 1000000000 + (key[0] as int) * 1000000 + (key[if key.len() > 1 {
        1
    } else {
        0
    }] as int) * 1000 + (key[key.len() - 1] as int)
}

proof fn lemma_status_keys_differ()
    ensures
        key_code("ip"@) == 2105112112,
        key_code("rpm"@) == 3114112109,
        key_code("spd"@) == 3115112100,
        key_code("watt"@) == 4119097116,
        key_code("m"@) == 1109109109,
        key_code("st"@) == 2115116116,
        key_code("pt"@) == 2112116116,
        key_code("sst"@) == 3115115116,
        key_code("spt"@) == 3115112116,
        key_code("v"@) == 1118118118,
        key_code("at"@) == 2097116116,
        forall|i: int| 0 <= i < 8 ==> key_code(#[trigger] relay_key(i)) == 2114049049 + i * 1001,
{
    reveal_strlit("ip");
    reveal_strlit("rpm");
    reveal_strlit("spd");
    reveal_strlit("watt");
    reveal_strlit("m");
    reveal_strlit("st");
    reveal_strlit("pt");
    reveal_strlit("sst");
    reveal_strlit("spt");
    reveal_strlit("v");
    reveal_strlit("at");
    reveal_strlit("r1");
    reveal_strlit("r2");
    reveal_strlit("r3");
    reveal_strlit("r4");
    reveal_strlit("r5");
    reveal_strlit("r6");
    reveal_strlit("r7");
    reveal_strlit("r8");
}

proof fn lemma_relay_entries(
    entries: Map<Seq<char>, JsonEntry>,
    feedback: Option<u8>,
    count: int,
)
    requires
        0 <= count <= 8,
    ensures
        forall|i: int|
            0 <= i < count ==> with_relay_entries(entries, feedback, count).contains_pair(
                #[trigger] relay_key(i),
                relay_entry(feedback, i),
            ),
        forall|key: Seq<char>|
            (forall|i: int| 0 <= i < 8 ==> key != #[trigger] relay_key(i)) ==> (
            #[trigger] with_relay_entries(entries, feedback, count).get(key) == entries.get(key)),
    decreases count,
{
    lemma_status_keys_differ();
    if count > 0 {
        lemma_relay_entries(entries, feedback, count - 1);
        assert forall|i: int| 0 <= i < count implies with_relay_entries(
            entries,
            feedback,
            count,
        ).contains_pair(#[trigger] relay_key(i), relay_entry(feedback, i)) by {
            if i < count - 1 {
                assert(key_code(relay_key(i)) != key_code(relay_key(count - 1)));
            }
        }
        assert forall|key: Seq<char>|
            (forall|i: int| 0 <= i < 8 ==> key != #[trigger] relay_key(i)) implies (
        #[trigger] with_relay_entries(entries, feedback, count).get(key) == entries.get(key)) by {
            assert(key != relay_key(count - 1));
            assert(with_relay_entries(entries, feedback, count - 1).get(key) == entries.get(key));
        }
    }
}

/// The status has exactly these members: what was measured, the commanded speed, mode and
/// temperatures, the schema version, and one member for each relay.
pub proof fn law_status_members(state: PoolState)
    ensures
        state.status_entries().contains_pair("ip"@, JsonEntry::Text(state.measured.ip@)),
        state.status_entries().contains_pair("rpm"@, int_entry(state.measured.rpm as int)),
        state.status_entries().contains_pair(
            "spd"@,
            int_entry(state.commanded.set_speed as int),
        ),
        state.status_entries().contains_pair("watt"@, int_entry(state.measured.watt as int)),
        state.status_entries().contains_pair("m"@, int_entry(state.commanded.mode as int)),
        state.status_entries().contains_pair("st"@, number_entry(state.measured.spa_temp)),
        state.status_entries().contains_pair("pt"@, number_entry(state.measured.pool_temp)),
        state.status_entries().contains_pair(
            "sst"@,
            int_entry(state.commanded.set_spa_temp as int),
        ),
        state.status_entries().contains_pair(
            "spt"@,
            int_entry(state.commanded.set_pool_temp as int),
        ),
        state.status_entries().contains_pair("v"@, int_entry(STATUS_VERSION as int)),
        state.status_entries().contains_pair(
            "at"@,
            whole_entry(state.measured.air_temp as int),
        ),
        forall|i: int|
            0 <= i < 8 ==> state.status_entries().contains_pair(
                #[trigger] relay_key(i),
                relay_entry(state.measured.relay_status, i),
            ),
        forall|key: Seq<char>|
            state.status_entries().contains_key(key) <==> (key == "ip"@ || key == "rpm"@ || key
                == "spd"@ || key == "watt"@ || key == "m"@ || key == "st"@ || key == "pt"@ || key
                == "sst"@ || key == "spt"@ || key == "v"@ || key == "at"@ || exists|i: int|
                0 <= i < 8 && key == #[trigger] relay_key(i)),
{
    lemma_status_keys_differ();
    let base = no_entries().insert("ip"@, JsonEntry::Text(state.measured.ip@)).insert(
        "rpm"@,
        int_entry(state.measured.rpm as int),
    ).insert("spd"@, int_entry(state.commanded.set_speed as int)).insert(
        "watt"@,
        int_entry(state.measured.watt as int),
    ).insert("m"@, int_entry(state.commanded.mode as int)).insert(
        "st"@,
        number_entry(state.measured.spa_temp),
    ).insert("pt"@, number_entry(state.measured.pool_temp)).insert(
        "sst"@,
        int_entry(state.commanded.set_spa_temp as int),
    ).insert("spt"@, int_entry(state.commanded.set_pool_temp as int)).insert(
        "v"@,
        int_entry(STATUS_VERSION as int),
    ).insert("at"@, whole_entry(state.measured.air_temp as int));
    lemma_relay_entries(base, state.measured.relay_status, 8);
    assert(state.status_entries() == with_relay_entries(base, state.measured.relay_status, 8));
    assert forall|key: Seq<char>| key == "ip"@ || key == "rpm"@ || key == "spd"@ || key == "watt"@
        || key == "m"@ || key == "st"@ || key == "pt"@ || key == "sst"@ || key == "spt"@ || key
        == "v"@ || key == "at"@ implies #[trigger] state.status_entries().get(key) == base.get(
        key,
    ) by {
        assert forall|i: int| 0 <= i < 8 implies key != #[trigger] relay_key(i) by {
            assert(key_code(key) != key_code(relay_key(i)));
        }
    }
    assert(state.status_entries().get("ip"@) == base.get("ip"@));
    assert(state.status_entries().get("rpm"@) == base.get("rpm"@));
    assert(state.status_entries().get("spd"@) == base.get("spd"@));
    assert(state.status_entries().get("watt"@) == base.get("watt"@));
    assert(state.status_entries().get("m"@) == base.get("m"@));
    assert(state.status_entries().get("st"@) == base.get("st"@));
    assert(state.status_entries().get("pt"@) == base.get("pt"@));
    assert(state.status_entries().get("sst"@) == base.get("sst"@));
    assert(state.status_entries().get("spt"@) == base.get("spt"@));
    assert(state.status_entries().get("v"@) == base.get("v"@));
    assert(state.status_entries().get("at"@) == base.get("at"@));
    assert forall|key: Seq<char>| state.status_entries().contains_key(key) implies (key == "ip"@
        || key == "rpm"@ || key == "spd"@ || key == "watt"@ || key == "m"@ || key == "st"@ || key
        == "pt"@ || key == "sst"@ || key == "spt"@ || key == "v"@ || key == "at"@ || exists|i: int|
        0 <= i < 8 && key == #[trigger] relay_key(i)) by {
        if forall|i: int| 0 <= i < 8 ==> key != #[trigger] relay_key(i) {
            assert(state.status_entries().get(key) == base.get(key));
        }
    }
}

/// The status never echoes the commanded relays: two states that differ in them alone have the
/// same status.
pub proof fn law_status_ignores_commanded_relays(state: PoolState, relays: u8)
    ensures
        (PoolState {
            commanded: CommandedState { relays, ..state.commanded },
            ..state
        }).status_entries() == state.status_entries(),
{
}

/// A change of the active loop takes the new loop's reading, which the status then shows as `null`,
/// and keeps the other loop's. Heat is allowed for neither.
pub proof fn law_loop_change_settles(state: PoolState, new_loop: ActiveLoop)
    ensures
        ({
            let settling = PoolState {
                water_temp_settling: true,
                ..state.with_water_temp(new_loop, None)
            };
            let other = if new_loop == ActiveLoop::Spa {
                ActiveLoop::Pool
            } else {
                ActiveLoop::Spa
            };
            &&& settling.water_temp(new_loop) is None
            &&& number_entry(settling.water_temp(new_loop)) == JsonEntry::Null
            &&& settling.water_temp(other) == state.water_temp(other)
            &&& settling.commanded == state.commanded
            &&& !settling.heat_allowed(new_loop)
            &&& !settling.heat_allowed(other)
        }),
{
}

/// Heat is never allowed for a loop without a reading, nor while the water settles.
pub proof fn law_no_heat_without_reading(state: PoolState, loop_: ActiveLoop)
    requires
        state.water_temp_settling || state.water_temp(loop_) is None,
    ensures
        !state.heat_allowed(loop_),
{
}

/// Relay `channel` is on exactly where bit `channel` of the byte is set, counted from the lowest:
/// `r1` counts 1, `r2` counts 2, and so on up to `r8`, which counts 128.
pub proof fn law_relay_bits(byte: u8, channel: int)
    requires
        0 <= channel < 8,
    ensures
        relay_on(byte, channel) <==> (byte >> (channel as u8)) & 1 == 1,
        relay_on(byte, 0) <==> byte & 0x01 != 0,
        relay_on(byte, 1) <==> byte & 0x02 != 0,
        relay_on(byte, 2) <==> byte & 0x04 != 0,
        relay_on(byte, 3) <==> byte & 0x08 != 0,
        relay_on(byte, 4) <==> byte & 0x10 != 0,
        relay_on(byte, 5) <==> byte & 0x20 != 0,
        relay_on(byte, 6) <==> byte & 0x40 != 0,
        relay_on(byte, 7) <==> byte & 0x80 != 0,
{
    let i = channel as u8;
    assert(byte & (1u8 << i) != 0 <==> (byte >> i) & 1 == 1) by (bit_vector)
        requires
            i < 8,
    ;
    assert(1u8 << 0u8 == 0x01 && 1u8 << 1u8 == 0x02 && 1u8 << 2u8 == 0x04 && 1u8 << 3u8 == 0x08
        && 1u8 << 4u8 == 0x10 && 1u8 << 5u8 == 0x20 && 1u8 << 6u8 == 0x40 && 1u8 << 7u8 == 0x80)
        by (bit_vector);
}

/// Packing adds up the values of the relays that are on, and unpacking a byte finds the relays
/// whose values add up to it.
pub proof fn law_relay_values_add_up(bits: Seq<bool>, byte: u8)
    requires
        bits.len() == 8,
    ensures
        packed_relays(bits) == (if bits[0] {
            1int
        } else {
            0
        }) + (if bits[1] {
            2int
        } else {
            0
        }) + (if bits[2] {
            4int
        } else {
            0
        }) + (if bits[3] {
            8int
        } else {
            0
        }) + (if bits[4] {
            16int
        } else {
            0
        }) + (if bits[5] {
            32int
        } else {
            0
        }) + (if bits[6] {
            64int
        } else {
            0
        }) + (if bits[7] {
            128int
        } else {
            0
        }),
        unpacked_relays(byte).len() == 8,
        unpacked_relays(byte) == bits <==> byte == packed_relays(bits),
{
    let b0 = bit_where(bits[0], 1);
    let b1 = bit_where(bits[1], 2);
    let b2 = bit_where(bits[2], 4);
    let b3 = bit_where(bits[3], 8);
    let b4 = bit_where(bits[4], 16);
    let b5 = bit_where(bits[5], 32);
    let b6 = bit_where(bits[6], 64);
    let b7 = bit_where(bits[7], 128);
    assert((b0 | b1 | b2 | b3 | b4 | b5 | b6 | b7) == b0 + b1 + b2 + b3 + b4 + b5 + b6 + b7)
        by (bit_vector)
        requires
            b0 == 0 || b0 == 1,
            b1 == 0 || b1 == 2,
            b2 == 0 || b2 == 4,
            b3 == 0 || b3 == 8,
            b4 == 0 || b4 == 16,
            b5 == 0 || b5 == 32,
            b6 == 0 || b6 == 64,
            b7 == 0 || b7 == 128,
    ;
    lemma_packed_relays(bits);
    law_pack_after_unpack(byte);
}

/// A speed word is the demand brought into the range from 0 to the limit: it is in that range, and
/// no number of the range lies nearer to the demand. The limit is `spd_max`, or 35 for 0. Reading a
/// speed word back does the same to the word.
pub proof fn law_speed_word_is_nearest(spd: int, word: u16, spd_max: u16, other: int)
    requires
        0 <= other <= if spd_max == 0 {
            35
        } else {
            spd_max as int
        },
    ensures
        ({
            let limit = if spd_max == 0 {
                35
            } else {
                spd_max as int
            };
            &&& spd_limit(spd_max) == limit
            &&& 0 <= speed_word(spd, spd_max) <= limit
            &&& other <= spd ==> other <= speed_word(spd, spd_max)
            &&& spd <= other ==> speed_word(spd, spd_max) <= other
            &&& 0 <= word_demand(word, spd_max) <= limit
            &&& other <= word ==> other <= word_demand(word, spd_max)
            &&& word <= other ==> word_demand(word, spd_max) <= other
        }),
{
}

/// Migration keeps a word up to 35. Above that it finds how often 655 goes into the word, up to 35
/// times, so that a demand times 655 comes back as the demand.
pub proof fn law_migration_divides(word: u16, demand: u16)
    requires
        1 <= demand <= 35,
    ensures
        word <= 35 ==> migrated_word(word) == word,
        word > 35 ==> migrated_word(word) * 655 <= word,
        word > 35 && migrated_word(word) < 35 ==> word < (migrated_word(word) + 1) * 655,
        migrated_word(word) <= 35,
        migrated_word((demand * 655) as u16) == demand,
{
}

/// The divert relay alone decides which loop is active: it is the spa exactly where that relay's
/// bit is set, whatever the other seven are. A number below 1 counts as 1, and one above 8 as 8.
pub proof fn law_divert_relay_alone_decides(relays: u8, other: u8, divert_relay: u8)
    ensures
        ({
            let bit = if divert_relay == 0 {
                0u8
            } else if divert_relay > 8 {
                7u8
            } else {
                (divert_relay - 1) as u8
            };
            &&& loop_of_relays(relays, divert_relay) == ActiveLoop::Spa <==> (relays >> bit) & 1 == 1
            &&& (relays >> bit) & 1 == (other >> bit) & 1 ==> loop_of_relays(relays, divert_relay)
                == loop_of_relays(other, divert_relay)
            &&& loop_of_relays(relays, 1) == ActiveLoop::Spa <==> relays & 0x01 != 0
            &&& loop_of_relays(relays, 7) == ActiveLoop::Spa <==> relays & 0x40 != 0
            &&& loop_of_relays(relays, 8) == ActiveLoop::Spa <==> relays & 0x80 != 0
        }),
{
    law_relay_bits(relays, divert_channel(divert_relay));
    law_relay_bits(other, divert_channel(divert_relay));
    let bit = divert_channel(divert_relay) as u8;
    assert((relays >> bit) & 1 == 0 || (relays >> bit) & 1 == 1) by (bit_vector);
}

/// Feedback from the board decides which loop is active, and the commanded relays do so only
/// before the first feedback.
pub proof fn law_feedback_decides(state: PoolState)
    ensures
        state.measured.relay_status matches Some(byte) ==> state.effective_relays() == byte,
        state.measured.relay_status is None ==> state.effective_relays()
            == state.commanded.relays,
{
}

/// The two loops have a reading of their own each, and replacing one changes nothing else.
pub proof fn law_readings_are_apart(state: PoolState, temp: Option<serde_json::Number>)
    ensures
        state.water_temp(ActiveLoop::Spa) == state.measured.spa_temp,
        state.water_temp(ActiveLoop::Pool) == state.measured.pool_temp,
        ({
            let spa = state.with_water_temp(ActiveLoop::Spa, temp);
            let pool = state.with_water_temp(ActiveLoop::Pool, temp);
            &&& spa.measured.spa_temp == temp && spa.measured.pool_temp
                == state.measured.pool_temp
            &&& pool.measured.pool_temp == temp && pool.measured.spa_temp
                == state.measured.spa_temp
            &&& spa.measured.rpm == state.measured.rpm && pool.measured.rpm == state.measured.rpm
            &&& spa.measured.watt == state.measured.watt && pool.measured.watt
                == state.measured.watt
            &&& spa.measured.air_temp == state.measured.air_temp && pool.measured.air_temp
                == state.measured.air_temp
            &&& spa.measured.relay_status == state.measured.relay_status
                && pool.measured.relay_status == state.measured.relay_status
            &&& spa.measured.ip == state.measured.ip && pool.measured.ip == state.measured.ip
            &&& spa.commanded == state.commanded && pool.commanded == state.commanded
            &&& spa.update_pump == state.update_pump && pool.update_pump == state.update_pump
            &&& spa.update_relays == state.update_relays && pool.update_relays
                == state.update_relays
            &&& spa.water_temp_settling == state.water_temp_settling && pool.water_temp_settling
                == state.water_temp_settling
        }),
{
}

/// Heat is allowed for a loop exactly where the water has settled and the loop has a reading.
pub proof fn law_heat_needs_settled_reading(state: PoolState)
    ensures
        state.heat_allowed(ActiveLoop::Spa) <==> !state.water_temp_settling
            && state.measured.spa_temp is Some,
        state.heat_allowed(ActiveLoop::Pool) <==> !state.water_temp_settling
            && state.measured.pool_temp is Some,
{
}

/// The key of a relay is an `r` and its number, which is the channel plus one.
pub proof fn law_relay_keys(channel: int)
    requires
        0 <= channel < 8,
    ensures
        relay_key(channel).len() == 2,
        relay_key(channel)[0] == 'r',
        relay_key(channel)[1] as int == '1' as int + channel,
{
    lemma_relay_key_texts();
}

proof fn lemma_relay_key_texts()
    ensures
        forall|i: int|
            0 <= i < 8 ==> (#[trigger] relay_key(i)).len() == 2 && relay_key(i)[0] == 'r'
                && relay_key(i)[1] as int == 49 + i,
{
    reveal_strlit("r1");
    reveal_strlit("r2");
    reveal_strlit("r3");
    reveal_strlit("r4");
    reveal_strlit("r5");
    reveal_strlit("r6");
    reveal_strlit("r7");
    reveal_strlit("r8");
}

/// With feedback from the board, `r1` to `r8` of the status are 1 where the lowest to the highest
/// bit of the feedback is set, and 0 where it is not. Before the first feedback they are `null`.
pub proof fn law_status_shows_feedback(state: PoolState, byte: u8)
    ensures
        state.measured.relay_status == Some(byte) ==> ({
            let status = state.status_entries();
            &&& status.contains_pair(
                "r1"@,
                JsonEntry::Number(
                    integer_number(
                        if byte & 0x01 != 0 {
                            1
                        } else {
                            0
                        },
                    ),
                ),
            )
            &&& status.contains_pair(
                "r2"@,
                JsonEntry::Number(
                    integer_number(
                        if byte & 0x02 != 0 {
                            1
                        } else {
                            0
                        },
                    ),
                ),
            )
            &&& status.contains_pair(
                "r3"@,
                JsonEntry::Number(
                    integer_number(
                        if byte & 0x04 != 0 {
                            1
                        } else {
                            0
                        },
                    ),
                ),
            )
            &&& status.contains_pair(
                "r4"@,
                JsonEntry::Number(
                    integer_number(
                        if byte & 0x08 != 0 {
                            1
                        } else {
                            0
                        },
                    ),
                ),
            )
            &&& status.contains_pair(
                "r5"@,
                JsonEntry::Number(
                    integer_number(
                        if byte & 0x10 != 0 {
                            1
                        } else {
                            0
                        },
                    ),
                ),
            )
            &&& status.contains_pair(
                "r6"@,
                JsonEntry::Number(
                    integer_number(
                        if byte & 0x20 != 0 {
                            1
                        } else {
                            0
                        },
                    ),
                ),
            )
            &&& status.contains_pair(
                "r7"@,
                JsonEntry::Number(
                    integer_number(
                        if byte & 0x40 != 0 {
                            1
                        } else {
                            0
                        },
                    ),
                ),
            )
            &&& status.contains_pair(
                "r8"@,
                JsonEntry::Number(
                    integer_number(
                        if byte & 0x80 != 0 {
                            1
                        } else {
                            0
                        },
                    ),
                ),
            )
        }),
        state.measured.relay_status is None ==> ({
            let status = state.status_entries();
            &&& status.contains_pair("r1"@, JsonEntry::Null)
            &&& status.contains_pair("r2"@, JsonEntry::Null)
            &&& status.contains_pair("r3"@, JsonEntry::Null)
            &&& status.contains_pair("r4"@, JsonEntry::Null)
            &&& status.contains_pair("r5"@, JsonEntry::Null)
            &&& status.contains_pair("r6"@, JsonEntry::Null)
            &&& status.contains_pair("r7"@, JsonEntry::Null)
            &&& status.contains_pair("r8"@, JsonEntry::Null)
        }),
{
    law_status_members(state);
    law_relay_bits(byte, 0);
    let status = state.status_entries();
    let feedback = state.measured.relay_status;
    assert(status.contains_pair(relay_key(0), relay_entry(feedback, 0)));
    assert(status.contains_pair(relay_key(1), relay_entry(feedback, 1)));
    assert(status.contains_pair(relay_key(2), relay_entry(feedback, 2)));
    assert(status.contains_pair(relay_key(3), relay_entry(feedback, 3)));
    assert(status.contains_pair(relay_key(4), relay_entry(feedback, 4)));
    assert(status.contains_pair(relay_key(5), relay_entry(feedback, 5)));
    assert(status.contains_pair(relay_key(6), relay_entry(feedback, 6)));
    assert(status.contains_pair(relay_key(7), relay_entry(feedback, 7)));
}

/// The other members of the status are the numbers and the text that the state holds, each under
/// its own key; a water temperature that is not known is `null`.
pub proof fn law_status_shows_state(state: PoolState)
    ensures
        ({
            let status = state.status_entries();
            &&& status.contains_pair("ip"@, JsonEntry::Text(state.measured.ip@))
            &&& status.contains_pair(
                "rpm"@,
                JsonEntry::Number(integer_number(state.measured.rpm as int)),
            )
            &&& status.contains_pair(
                "watt"@,
                JsonEntry::Number(integer_number(state.measured.watt as int)),
            )
            &&& status.contains_pair(
                "at"@,
                JsonEntry::Number(double_number(state.measured.air_temp as int)),
            )
            &&& status.contains_pair(
                "spd"@,
                JsonEntry::Number(integer_number(state.commanded.set_speed as int)),
            )
            &&& status.contains_pair(
                "m"@,
                JsonEntry::Number(integer_number(state.commanded.mode as int)),
            )
            &&& status.contains_pair(
                "sst"@,
                JsonEntry::Number(integer_number(state.commanded.set_spa_temp as int)),
            )
            &&& status.contains_pair(
                "spt"@,
                JsonEntry::Number(integer_number(state.commanded.set_pool_temp as int)),
            )
            &&& status.contains_pair("v"@, JsonEntry::Number(integer_number(1)))
            &&& state.measured.spa_temp matches Some(temp) ==> status.contains_pair(
                "st"@,
                JsonEntry::Number(temp),
            )
            &&& state.measured.spa_temp is None ==> status.contains_pair("st"@, JsonEntry::Null)
            &&& state.measured.pool_temp matches Some(temp) ==> status.contains_pair(
                "pt"@,
                JsonEntry::Number(temp),
            )
            &&& state.measured.pool_temp is None ==> status.contains_pair("pt"@, JsonEntry::Null)
        }),
{
    law_status_members(state);
}

} // verus!
