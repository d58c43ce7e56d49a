//! Commands: which settings a command object asks for, and what it does to the state.
use vstd::prelude::*;

use crate::double::{clamped_whole, double_whole};
use crate::json::{field_view, is_object, object_field, object_fields, FieldView, JsonField};
use crate::state::{
    encode_spd, law_pack_after_unpack, law_relay_bits, law_speed_word_is_nearest,
    lemma_packed_relays, pack_relays, packed_relays, relay_key, relay_name, relay_on, spd_limit,
    speed_word, unpack_relays, unpacked_relays, CommandedState, PoolState,
};
use crate::text::{i32_from_text, parse_i32, same_text};

verus! {

/// The members of a command object that a command reads.
#[derive(Debug, Clone)]
pub struct CommandFields {
    pub m: Option<JsonField>,
    pub spd: Option<JsonField>,
    pub sst: Option<JsonField>,
    pub spt: Option<JsonField>,
    /// `r1` to `r8`.
    pub relays: [Option<JsonField>; 8],
}

/// What [`CommandFields`] hold.
pub struct CommandView {
    pub m: Option<FieldView>,
    pub spd: Option<FieldView>,
    pub sst: Option<FieldView>,
    pub spt: Option<FieldView>,
    pub relays: Seq<Option<FieldView>>,
}

impl View for CommandFields {
    type V = CommandView;

    open spec fn view(&self) -> CommandView {
        CommandView {
            m: field_view(self.m),
            spd: field_view(self.spd),
            sst: field_view(self.sst),
            spt: field_view(self.spt),
            relays: Seq::new(8, |i: int| field_view(self.relays@[i])),
        }
    }
}

/// The members that a command reads of an object with these members.
pub open spec fn command_members(fields: Map<Seq<char>, FieldView>) -> CommandView {
    CommandView {
        m: fields.get("m"@),
        spd: fields.get("spd"@),
        sst: fields.get("sst"@),
        spt: fields.get("spt"@),
        relays: Seq::new(8, |i: int| fields.get(relay_key(i))),
    }
}

/// `v` clamped to the `i32` range.
pub open spec fn clamped_i32(v: int) -> i32 {
    if v < i32::MIN {
        i32::MIN
    } else if v > i32::MAX {
        i32::MAX
    } else {
        v as i32
    }
}

/// The integer that a member stands for, or the text of the refusal.
///
/// A number stands for its whole part, clamped to the `i32` range; `true` for 1 and `false` for 0;
/// a string for the integer that it spells.
pub open spec fn field_i32(field: FieldView, key: Seq<char>) -> Result<i32, Seq<char>> {
    match field {
        FieldView::Number { integer: Some(v), .. } => Ok(clamped_i32(v as int)),
        FieldView::Number { integer: None, double: Some(bits) } => Ok(
            clamped_i32(double_whole(bits)),
        ),
        FieldView::Number { integer: None, double: None } => Err(key + " out of range"@),
        FieldView::Bool(b) => Ok(
            if b {
                1
            } else {
                0
            },
        ),
        FieldView::Text(s) => match i32_from_text(s) {
            Some(v) => Ok(v),
            None => Err(key + " must be an integer"@),
        },
        _ => Err(key + " must be an integer"@),
    }
}

/// The switch position that a member stands for, or the text of the refusal.
///
/// A number is on where its whole part is not 0; a string is on as `1` or `true`, off as `0` or
/// `false`, the words also capitalised or in capitals.
pub open spec fn field_switch(field: FieldView, key: Seq<char>) -> Result<bool, Seq<char>> {
    match field {
        FieldView::Bool(b) => Ok(b),
        FieldView::Number { integer: Some(v), .. } => Ok(v != 0),
        FieldView::Number { integer: None, double: Some(bits) } => Ok(double_whole(bits) != 0),
        FieldView::Number { integer: None, double: None } => Err(key + " out of range"@),
        FieldView::Text(s) => if s == "1"@ || s == "true"@ || s == "True"@ || s == "TRUE"@ {
            Ok(true)
        } else if s == "0"@ || s == "false"@ || s == "False"@ || s == "FALSE"@ {
            Ok(false)
        } else {
            Err(key + " must be 0/1"@)
        },
        _ => Err(key + " must be 0/1"@),
    }
}

fn with_key(key: &str, rest: &str) -> (text: String)
    ensures
        text@ == key@ + rest@,
{
    let mut text = key.to_owned();
    text.append(rest);
    text
}

fn clamp_i32(v: i64) -> (clamped: i32)
    ensures
        clamped == clamped_i32(v as int),
{
    if v < i32::MIN as i64 {
        i32::MIN
    } else if v > i32::MAX as i64 {
        i32::MAX
    } else {
        v as i32
    }
}

/// The outcome of a conversion with its error text taken by what it holds.
pub open spec fn outcome_view<T>(outcome: Result<T, String>) -> Result<T, Seq<char>> {
    match outcome {
        Ok(v) => Ok(v),
        Err(text) => Err(text@),
    }
}

/// Reads an integer out of a member; see [`field_i32`].
pub fn json_as_i32(field: &JsonField, key: &str) -> (value: Result<i32, String>)
    ensures
        outcome_view(value) == field_i32(field@, key@),
{
    match field {
        JsonField::Number { integer, double } => match integer {
            Some(v) => Ok(clamp_i32(*v)),
            None => match double {
                Some(bits) => Ok(clamp_i32(clamped_whole(*bits))),
                None => Err(with_key(key, " out of range")),
            },
        },
        JsonField::Bool(b) => Ok(
            if *b {
                1
            } else {
                0
            },
        ),
        JsonField::Text(s) => match parse_i32(s.as_str()) {
            Some(v) => Ok(v),
            None => Err(with_key(key, " must be an integer")),
        },
        _ => Err(with_key(key, " must be an integer")),
    }
}

/// Reads a switch position out of a member; see [`field_switch`].
pub fn json_as_boolish(field: &JsonField, key: &str) -> (value: Result<bool, String>)
    ensures
        outcome_view(value) == field_switch(field@, key@),
{
    match field {
        JsonField::Bool(b) => Ok(*b),
        JsonField::Number { integer, double } => match integer {
            Some(v) => Ok(*v != 0),
            None => match double {
                Some(bits) => Ok(clamped_whole(*bits) != 0),
                None => Err(with_key(key, " out of range")),
            },
        },
        JsonField::Text(text) => {
            let s = text.as_str();
            if same_text(s, "1") || same_text(s, "true") || same_text(s, "True") || same_text(
                s,
                "TRUE",
            ) {
                Ok(true)
            } else if same_text(s, "0") || same_text(s, "false") || same_text(s, "False")
                || same_text(s, "FALSE") {
                Ok(false)
            } else {
                Err(with_key(key, " must be 0/1"))
            }
        },
        _ => Err(with_key(key, " must be 0/1")),
    }
}

/// The setting that an optional member asks for: `current` where it is absent.
pub open spec fn requested_i32(
    field: Option<FieldView>,
    key: Seq<char>,
    current: i32,
) -> Result<i32, Seq<char>> {
    match field {
        Some(f) => field_i32(f, key),
        None => Ok(current),
    }
}

/// The speed word that an optional `spd` member asks for: `current` where it is absent.
pub open spec fn requested_speed(
    field: Option<FieldView>,
    spd_max: u16,
    current: u16,
) -> Result<u16, Seq<char>> {
    match field {
        Some(f) => match field_i32(f, "spd"@) {
            Ok(v) => Ok(speed_word(v as int, spd_max)),
            Err(text) => Err(text),
        },
        None => Ok(current),
    }
}

/// The position that an optional relay member asks for: `current` where it is absent.
pub open spec fn requested_switch(
    field: Option<FieldView>,
    channel: int,
    current: bool,
) -> Result<bool, Seq<char>> {
    match field {
        Some(f) => field_switch(f, relay_key(channel)),
        None => Ok(current),
    }
}

/// The first refusal among the first `count` relay members.
pub open spec fn switch_refusal(relays: Seq<Option<FieldView>>, count: int) -> Option<Seq<char>>
    decreases count,
{
    if count <= 0 {
        None
    } else {
        match switch_refusal(relays, count - 1) {
            Some(text) => Some(text),
            None => match requested_switch(relays[count - 1], count - 1, false) {
                Ok(_) => None,
                Err(text) => Some(text),
            },
        }
    }
}

/// The relays that the relay members ask for, on top of the current ones.
pub open spec fn requested_relays(relays: Seq<Option<FieldView>>, current: u8) -> Seq<bool> {
    Seq::new(
        8,
        |i: int|
            match requested_switch(relays[i], i, relay_on(current, i)) {
                Ok(on) => on,
                Err(_) => relay_on(current, i),
            },
    )
}

/// Whether the command has any of the relay members.
pub open spec fn names_relay(command: CommandView) -> bool {
    exists|i: int| 0 <= i < 8 && (#[trigger] command.relays[i]) is Some
}

/// The commanded settings after a command, or the refusal: that of the first member in the order
/// `m`, `spd`, `sst`, `spt`, `r1` to `r8` that cannot be read.
pub open spec fn command_outcome(
    current: CommandedState,
    command: CommandView,
    spd_max: u16,
) -> Result<CommandedState, Seq<char>> {
    match (
        requested_i32(command.m, "m"@, current.mode),
        requested_speed(command.spd, spd_max, current.set_speed),
        requested_i32(command.sst, "sst"@, current.set_spa_temp),
        requested_i32(command.spt, "spt"@, current.set_pool_temp),
        switch_refusal(command.relays, 8),
    ) {
        (Err(text), _, _, _, _) => Err(text),
        (_, Err(text), _, _, _) => Err(text),
        (_, _, Err(text), _, _) => Err(text),
        (_, _, _, Err(text), _) => Err(text),
        (_, _, _, _, Some(text)) => Err(text),
        (Ok(mode), Ok(set_speed), Ok(set_spa_temp), Ok(set_pool_temp), None) => Ok(
            CommandedState {
                mode,
                set_speed,
                set_spa_temp,
                set_pool_temp,
                relays: packed_relays(requested_relays(command.relays, current.relays)),
            },
        ),
    }
}

/// Reads an optional integer member, `current` where it is absent.
fn read_i32(field: &Option<JsonField>, key: &str, current: i32) -> (value: Result<i32, String>)
    ensures
        outcome_view(value) == requested_i32(field_view(*field), key@, current),
{
    match field {
        Some(f) => json_as_i32(f, key),
        None => Ok(current),
    }
}

impl PoolState {
    /// What a command does to the state, where it is not refused: the commanded settings change,
    /// the dirty flags can only be set, and nothing else changes.
    pub open spec fn after_command(self, command: CommandView, commanded: CommandedState) -> PoolState {
        PoolState {
            commanded,
            update_pump: self.update_pump || commanded.set_speed != self.commanded.set_speed,
            update_relays: self.update_relays || names_relay(command),
            ..self
        }
    }

    /// Applies the members of a command, of which any may be absent.
    ///
    /// All members are read before any takes effect, so a refused command changes nothing. Returns
    /// whether a commanded setting changed. A change of speed marks the pump dirty; a relay member
    /// marks the relays dirty even where it asks for no change.
    pub fn apply_command_fields(&mut self, fields: &CommandFields, spd_max: u16) -> (changed: Result<
        bool,
        String,
    >)
        ensures
            match changed {
                Ok(yes) => {
                    &&& command_outcome(old(self).commanded, fields@, spd_max) == Ok::<
                        CommandedState,
                        Seq<char>,
                    >(final(self).commanded)
                    &&& *final(self) == old(self).after_command(fields@, final(self).commanded)
                    &&& yes == (final(self).commanded != old(self).commanded)
                },
                Err(text) => {
                    &&& command_outcome(old(self).commanded, fields@, spd_max) == Err::<
                        CommandedState,
                        Seq<char>,
                    >(text@)
                    &&& *final(self) == *old(self)
                },
            },
    {
        let current = self.commanded;
        let mode: i32 = match read_i32(&fields.m, "m", current.mode) {
            Ok(v) => v,
            Err(text) => {
                return Err(text);
            },
        };
        let set_speed: u16 = match &fields.spd {
            Some(f) => match json_as_i32(f, "spd") {
                Ok(v) => encode_spd(v, spd_max),
                Err(text) => {
                    return Err(text);
                },
            },
            None => current.set_speed,
        };
        let set_spa_temp: i32 = match read_i32(&fields.sst, "sst", current.set_spa_temp) {
            Ok(v) => v,
            Err(text) => {
                return Err(text);
            },
        };
        let set_pool_temp: i32 = match read_i32(&fields.spt, "spt", current.set_pool_temp) {
            Ok(v) => v,
            Err(text) => {
                return Err(text);
            },
        };
        let mut bits = unpack_relays(current.relays);
        let mut named = false;
        let mut i: usize = 0;
        let ghost relays = fields@.relays;
        while i < 8
            invariant
                i <= 8,
                relays == fields@.relays,
                current == old(self).commanded,
                *self == *old(self),
                switch_refusal(relays, i as int) is None,
                named <==> exists|j: int| 0 <= j < i && (#[trigger] relays[j]) is Some,
                forall|j: int|
                    0 <= j < i ==> bits@[j] == #[trigger] requested_relays(
                        relays,
                        current.relays,
                    )[j],
                forall|j: int| i <= j < 8 ==> #[trigger] bits@[j] == relay_on(current.relays, j),
                requested_i32(fields@.m, "m"@, current.mode) == Ok::<i32, Seq<char>>(mode),
                requested_speed(fields@.spd, spd_max, current.set_speed) == Ok::<u16, Seq<char>>(
                    set_speed,
                ),
                requested_i32(fields@.sst, "sst"@, current.set_spa_temp) == Ok::<i32, Seq<char>>(
                    set_spa_temp,
                ),
                requested_i32(fields@.spt, "spt"@, current.set_pool_temp) == Ok::<i32, Seq<char>>(
                    set_pool_temp,
                ),
            decreases 8 - i,
        {
            assert(relays[i as int] == field_view(fields.relays@[i as int]));
            match &fields.relays[i] {
                Some(f) => {
                    named = true;
                    match json_as_boolish(f, relay_name(i)) {
                        Ok(on) => {
                            bits[i] = on;
                        },
                        Err(text) => {
                            proof {
                                assert(switch_refusal(relays, i + 1) == Some(text@));
                                lemma_refusal_stays(relays, i + 1, 8);
                            }
                            return Err(text);
                        },
                    }
                },
                None => {},
            }
            i = i + 1;
        }
        assert(bits@ =~= requested_relays(relays, current.relays));
        let draft = CommandedState {
            mode,
            set_speed,
            set_spa_temp,
            set_pool_temp,
            relays: pack_relays(bits),
        };
        assert(named == names_relay(fields@));
        let changed = draft != current;
        self.update_pump = self.update_pump || draft.set_speed != current.set_speed;
        self.update_relays = self.update_relays || named;
        self.commanded = draft;
        Ok(changed)
    }

    /// Applies a command given as a JSON value; see [`PoolState::apply_command_fields`].
    ///
    /// A value that is no object is refused.
    pub fn apply_command_json(
        &mut self,
        value: &serde_json::Value,
        spd_max: u16,
    ) -> (changed: Result<bool, String>)
        ensures
            match object_fields(*value) {
                None => {
                    &&& outcome_view(changed) == Err::<bool, Seq<char>>(
                        "command payload must be a JSON object"@,
                    )
                    &&& *final(self) == *old(self)
                },
                Some(fields) => match changed {
                    Ok(yes) => {
                        &&& command_outcome(
                            old(self).commanded,
                            command_members(fields),
                            spd_max,
                        ) == Ok::<CommandedState, Seq<char>>(final(self).commanded)
                        &&& *final(self) == old(self).after_command(
                            command_members(fields),
                            final(self).commanded,
                        )
                        &&& yes == (final(self).commanded != old(self).commanded)
                    },
                    Err(text) => {
                        &&& command_outcome(
                            old(self).commanded,
                            command_members(fields),
                            spd_max,
                        ) == Err::<CommandedState, Seq<char>>(text@)
                        &&& *final(self) == *old(self)
                    },
                },
            },
    {
        match command_fields(value) {
            Ok(fields) => self.apply_command_fields(&fields, spd_max),
            Err(text) => Err(text),
        }
    }
}

/// Takes the members that a command reads out of a JSON value. A value that is no object is
/// refused.
pub fn command_fields(value: &serde_json::Value) -> (fields: Result<CommandFields, String>)
    ensures
        match fields {
            Ok(found) => object_fields(*value) matches Some(members) && found@ == command_members(
                members,
            ),
            Err(text) => object_fields(*value) is None && text@
                == "command payload must be a JSON object"@,
        },
{
    if !is_object(value) {
        return Err("command payload must be a JSON object".to_owned());
    }
    let fields = CommandFields {
        m: object_field(value, "m"),
        spd: object_field(value, "spd"),
        sst: object_field(value, "sst"),
        spt: object_field(value, "spt"),
        relays: [
            object_field(value, "r1"),
            object_field(value, "r2"),
            object_field(value, "r3"),
            object_field(value, "r4"),
            object_field(value, "r5"),
            object_field(value, "r6"),
            object_field(value, "r7"),
            object_field(value, "r8"),
        ],
    };
    assert(fields@.relays =~= command_members(object_fields(*value)->0).relays);
    Ok(fields)
}

proof fn lemma_refusal_stays(relays: Seq<Option<FieldView>>, from: int, to: int)
    requires
        0 <= from <= to,
        switch_refusal(relays, from) is Some,
    ensures
        switch_refusal(relays, to) == switch_refusal(relays, from),
    decreases to - from,
{
    if from < to {
        lemma_refusal_stays(relays, from, to - 1);
    }
}

/// A command only ever adds marks for unsent settings: for the relays where it names any, for the
/// speed where it changes. It keeps all measurements.
pub proof fn law_command_adds_marks(
    state: PoolState,
    command: CommandView,
    commanded: CommandedState,
)
    ensures
        ({
            let after = state.after_command(command, commanded);
            &&& state.update_pump ==> after.update_pump
            &&& state.update_relays ==> after.update_relays
            &&& names_relay(command) ==> after.update_relays
            &&& commanded.set_speed != state.commanded.set_speed ==> after.update_pump
            &&& after.measured == state.measured
            &&& after.water_temp_settling == state.water_temp_settling
        }),
{
}

/// A command that asks for nothing leaves every setting as it is.
pub proof fn law_empty_command(current: CommandedState, command: CommandView, spd_max: u16)
    requires
        command.m is None,
        command.spd is None,
        command.sst is None,
        command.spt is None,
        command.relays.len() == 8,
        forall|i: int| 0 <= i < 8 ==> (#[trigger] command.relays[i]) is None,
    ensures
        command_outcome(current, command, spd_max) == Ok::<CommandedState, Seq<char>>(current),
        !names_relay(command),
{
    lemma_no_refusal(command.relays, 8);
    assert(requested_relays(command.relays, current.relays) =~= unpacked_relays(current.relays));
    law_pack_after_unpack(current.relays);
}

proof fn lemma_no_refusal(relays: Seq<Option<FieldView>>, count: int)
    requires
        count <= relays.len(),
        forall|i: int| 0 <= i < relays.len() ==> (#[trigger] relays[i]) is None,
    ensures
        switch_refusal(relays, count) is None,
    decreases count,
{
    if count > 0 {
        lemma_no_refusal(relays, count - 1);
        assert(relays[count - 1] is None);
    }
}

/// A command touches the settings of the members that it has, and no others.
pub proof fn law_absent_members_keep_settings(
    current: CommandedState,
    command: CommandView,
    spd_max: u16,
)
    requires
        command_outcome(current, command, spd_max) is Ok,
    ensures
        ({
            let after = command_outcome(current, command, spd_max)->Ok_0;
            &&& command.m is None ==> after.mode == current.mode
            &&& command.spd is None ==> after.set_speed == current.set_speed
            &&& command.sst is None ==> after.set_spa_temp == current.set_spa_temp
            &&& command.spt is None ==> after.set_pool_temp == current.set_pool_temp
            &&& forall|i: int|
                0 <= i < 8 && command.relays[i] is None ==> #[trigger] relay_on(after.relays, i)
                    == relay_on(current.relays, i)
        }),
{
    lemma_packed_relays(requested_relays(command.relays, current.relays));
}

/// After a command with an `spd` member the speed demand is at most the limit.
pub proof fn law_commanded_speed_in_range(
    current: CommandedState,
    command: CommandView,
    spd_max: u16,
)
    requires
        command_outcome(current, command, spd_max) is Ok,
        command.spd is Some,
    ensures
        command_outcome(current, command, spd_max)->Ok_0.set_speed <= spd_limit(spd_max),
{
}

/// A command that has taken effect has no effect a second time: the settings stay, so the second
/// time it reports no change.
pub proof fn law_command_idempotent(current: CommandedState, command: CommandView, spd_max: u16)
    requires
        command_outcome(current, command, spd_max) is Ok,
    ensures
        command_outcome(
            command_outcome(current, command, spd_max)->Ok_0,
            command,
            spd_max,
        ) == command_outcome(current, command, spd_max),
{
    let after = command_outcome(current, command, spd_max)->Ok_0;
    let first = requested_relays(command.relays, current.relays);
    let second = requested_relays(command.relays, after.relays);
    lemma_packed_relays(first);
    assert(second =~= first);
}

/// Clamping brings a number into the `i32` range, and no number of the range lies nearer to it.
pub proof fn law_clamped_i32(v: int, other: i32)
    ensures
        other <= v ==> other <= clamped_i32(v),
        v <= other ==> clamped_i32(v) <= other,
{
}

/// What an integer is read from. A number gives its whole part brought into the `i32` range, `true`
/// and `false` give 1 and 0, and a string gives the integer that it spells. Anything else is
/// refused, by its key.
pub proof fn law_integer_members(
    v: i64,
    double: Option<u64>,
    bits: u64,
    b: bool,
    text: Seq<char>,
    key: Seq<char>,
    other: i32,
)
    ensures
        ({
            let read = field_i32(FieldView::Number { integer: Some(v), double }, key);
            &&& read is Ok
            &&& other <= v ==> other <= read->Ok_0
            &&& v <= other ==> read->Ok_0 <= other
        }),
        ({
            let read = field_i32(FieldView::Number { integer: None, double: Some(bits) }, key);
            &&& read is Ok
            &&& other <= double_whole(bits) ==> other <= read->Ok_0
            &&& double_whole(bits) <= other ==> read->Ok_0 <= other
        }),
        field_i32(FieldView::Number { integer: None, double: None }, key) == Err::<i32, Seq<char>>(
            key + " out of range"@,
        ),
        b ==> field_i32(FieldView::Bool(b), key) == Ok::<i32, Seq<char>>(1),
        !b ==> field_i32(FieldView::Bool(b), key) == Ok::<i32, Seq<char>>(0),
        i32_from_text(text) matches Some(n) ==> field_i32(FieldView::Text(text), key) == Ok::<
            i32,
            Seq<char>,
        >(n),
        i32_from_text(text) is None ==> field_i32(FieldView::Text(text), key) == Err::<
            i32,
            Seq<char>,
        >(key + " must be an integer"@),
        field_i32(FieldView::Null, key) == Err::<i32, Seq<char>>(key + " must be an integer"@),
        field_i32(FieldView::Array, key) == Err::<i32, Seq<char>>(key + " must be an integer"@),
        field_i32(FieldView::Object, key) == Err::<i32, Seq<char>>(key + " must be an integer"@),
{
}

/// What a switch position is read from. A boolean is itself, a number is on where its whole part is
/// not 0, and a string is on as `1` or `true` and off as `0` or `false`, the words also capitalised
/// or in capitals. Anything else is refused, by its key.
pub proof fn law_switch_members(
    v: i64,
    double: Option<u64>,
    bits: u64,
    b: bool,
    text: Seq<char>,
    key: Seq<char>,
)
    ensures
        field_switch(FieldView::Bool(b), key) == Ok::<bool, Seq<char>>(b),
        v != 0 ==> field_switch(FieldView::Number { integer: Some(v), double }, key) == Ok::<
            bool,
            Seq<char>,
        >(true),
        v == 0 ==> field_switch(FieldView::Number { integer: Some(v), double }, key) == Ok::<
            bool,
            Seq<char>,
        >(false),
        field_switch(FieldView::Number { integer: None, double: Some(bits) }, key) == Ok::<
            bool,
            Seq<char>,
        >(double_whole(bits) != 0),
        field_switch(FieldView::Number { integer: None, double: None }, key) == Err::<
            bool,
            Seq<char>,
        >(key + " out of range"@),
        set!["1"@, "true"@, "True"@, "TRUE"@].contains(text) <==> field_switch(
            FieldView::Text(text),
            key,
        ) == Ok::<bool, Seq<char>>(true),
        set!["0"@, "false"@, "False"@, "FALSE"@].contains(text) <==> field_switch(
            FieldView::Text(text),
            key,
        ) == Ok::<bool, Seq<char>>(false),
        field_switch(FieldView::Text(text), key) is Err ==> field_switch(FieldView::Text(text), key)
            == Err::<bool, Seq<char>>(key + " must be 0/1"@),
        field_switch(FieldView::Null, key) == Err::<bool, Seq<char>>(key + " must be 0/1"@),
        field_switch(FieldView::Array, key) == Err::<bool, Seq<char>>(key + " must be 0/1"@),
        field_switch(FieldView::Object, key) == Err::<bool, Seq<char>>(key + " must be 0/1"@),
{
    lemma_switch_words_differ();
}

proof fn lemma_switch_words_differ()
    ensures
        "0"@ != "1"@ && "0"@ != "true"@ && "0"@ != "True"@ && "0"@ != "TRUE"@,
        "false"@ != "1"@ && "false"@ != "true"@ && "false"@ != "True"@ && "false"@ != "TRUE"@,
        "False"@ != "1"@ && "False"@ != "true"@ && "False"@ != "True"@ && "False"@ != "TRUE"@,
        "FALSE"@ != "1"@ && "FALSE"@ != "true"@ && "FALSE"@ != "True"@ && "FALSE"@ != "TRUE"@,
{
    reveal_strlit("0");
    reveal_strlit("1");
    reveal_strlit("true");
    reveal_strlit("True");
    reveal_strlit("TRUE");
    reveal_strlit("false");
    reveal_strlit("False");
    reveal_strlit("FALSE");
    assert("0"@[0] == '0' && "1"@[0] == '1');
    assert("0"@.len() == 1 && "1"@.len() == 1 && "true"@.len() == 4 && "True"@.len() == 4
        && "TRUE"@.len() == 4 && "false"@.len() == 5 && "False"@.len() == 5 && "FALSE"@.len() == 5);
}

/// After a command that is not refused, a relay that it names is exactly where its member asks it
/// to be, whatever it was before: bit `channel` of the relays is what the boolean says, or whether
/// the integer is not 0, or whether the whole part of the number is not 0, or on for `1` and `true`
/// and off for `0` and `false`. A relay that it does not name stays.
pub proof fn law_named_relays_obey(
    current: CommandedState,
    command: CommandView,
    spd_max: u16,
    channel: int,
)
    requires
        command_outcome(current, command, spd_max) is Ok,
        command.relays.len() == 8,
        0 <= channel < 8,
    ensures
        ({
            let after = command_outcome(current, command, spd_max)->Ok_0.relays;
            let on = (after >> (channel as u8)) & 1 == 1;
            match command.relays[channel] {
                None => on == ((current.relays >> (channel as u8)) & 1 == 1),
                Some(FieldView::Bool(b)) => on == b,
                Some(FieldView::Number { integer: Some(v), .. }) => on == (v != 0),
                Some(FieldView::Number { integer: None, double: Some(bits) }) => on == (
                double_whole(bits) != 0),
                Some(FieldView::Text(text)) => {
                    &&& on ==> text == "1"@ || text == "true"@ || text == "True"@ || text
                        == "TRUE"@
                    &&& !on ==> text == "0"@ || text == "false"@ || text == "False"@ || text
                        == "FALSE"@
                },
                Some(_) => false,
            }
        }),
{
    let after = command_outcome(current, command, spd_max)->Ok_0.relays;
    let asked = requested_relays(command.relays, current.relays);
    lemma_packed_relays(asked);
    law_relay_bits(after, channel);
    law_relay_bits(current.relays, channel);
    lemma_accepted_switch(command.relays, 8, channel);
    assert(relay_on(after, channel) == asked[channel]);
}

proof fn lemma_accepted_switch(relays: Seq<Option<FieldView>>, count: int, channel: int)
    requires
        switch_refusal(relays, count) is None,
        0 <= channel < count,
    ensures
        requested_switch(relays[channel], channel, false) is Ok,
    decreases count,
{
    if channel < count - 1 {
        lemma_accepted_switch(relays, count - 1, channel);
    }
}

/// The relays that a command names do not depend on what they were before it.
pub proof fn law_named_relays_forget(
    one: CommandedState,
    other: CommandedState,
    command: CommandView,
    spd_max: u16,
    channel: int,
)
    requires
        command_outcome(one, command, spd_max) is Ok,
        command_outcome(other, command, spd_max) is Ok,
        command.relays.len() == 8,
        0 <= channel < 8,
        command.relays[channel] is Some,
    ensures
        (command_outcome(one, command, spd_max)->Ok_0.relays >> (channel as u8)) & 1 == (
        command_outcome(other, command, spd_max)->Ok_0.relays >> (channel as u8)) & 1,
{
    let a = command_outcome(one, command, spd_max)->Ok_0.relays;
    let b = command_outcome(other, command, spd_max)->Ok_0.relays;
    let i = channel as u8;
    lemma_accepted_switch(command.relays, 8, channel);
    lemma_packed_relays(requested_relays(command.relays, one.relays));
    lemma_packed_relays(requested_relays(command.relays, other.relays));
    law_relay_bits(a, channel);
    law_relay_bits(b, channel);
    assert((a >> i) & 1 == 0 || (a >> i) & 1 == 1) by (bit_vector);
    assert((b >> i) & 1 == 0 || (b >> i) & 1 == 1) by (bit_vector);
    assert(relay_on(a, channel) == requested_relays(command.relays, one.relays)[channel]);
    assert(relay_on(b, channel) == requested_relays(command.relays, other.relays)[channel]);
}

/// After a command that is not refused, the mode and the two temperatures are the integers of their
/// members, each of its own, and the speed is that of `spd` brought into the range from 0 to the
/// limit. A setting without a member stays.
pub proof fn law_named_settings_obey(
    current: CommandedState,
    command: CommandView,
    spd_max: u16,
    other: int,
)
    requires
        command_outcome(current, command, spd_max) is Ok,
        0 <= other <= if spd_max == 0 {
            35
        } else {
            spd_max as int
        },
    ensures
        ({
            let after = command_outcome(current, command, spd_max)->Ok_0;
            &&& match command.m {
                Some(field) => field_i32(field, "m"@) == Ok::<i32, Seq<char>>(after.mode),
                None => after.mode == current.mode,
            }
            &&& match command.sst {
                Some(field) => field_i32(field, "sst"@) == Ok::<i32, Seq<char>>(
                    after.set_spa_temp,
                ),
                None => after.set_spa_temp == current.set_spa_temp,
            }
            &&& match command.spt {
                Some(field) => field_i32(field, "spt"@) == Ok::<i32, Seq<char>>(
                    after.set_pool_temp,
                ),
                None => after.set_pool_temp == current.set_pool_temp,
            }
            &&& match command.spd {
                Some(field) => match field_i32(field, "spd"@) {
                    Ok(spd) => {
                        &&& after.set_speed <= if spd_max == 0 {
                            35
                        } else {
                            spd_max as int
                        }
                        &&& other <= spd ==> other <= after.set_speed
                        &&& spd <= other ==> after.set_speed <= other
                    },
                    Err(_) => false,
                },
                None => after.set_speed == current.set_speed,
            }
        }),
{
    if let Some(field) = command.spd {
        if let Ok(spd) = field_i32(field, "spd"@) {
            law_speed_word_is_nearest(spd as int, 0, spd_max, other);
        }
    }
}

/// A command is refused exactly where one of its members cannot be read, and the refusal is that of
/// the first such member in the order `m`, `spd`, `sst`, `spt`, `r1` to `r8`. What is commanded has
/// no part in it.
pub proof fn law_first_unreadable_member_refuses(
    current: CommandedState,
    command: CommandView,
    spd_max: u16,
)
    requires
        command.relays.len() == 8,
    ensures
        ({
            let outcome = command_outcome(current, command, spd_max);
            let m_ok = command.m is None || field_i32(command.m->0, "m"@) is Ok;
            let spd_ok = command.spd is None || field_i32(command.spd->0, "spd"@) is Ok;
            let sst_ok = command.sst is None || field_i32(command.sst->0, "sst"@) is Ok;
            let spt_ok = command.spt is None || field_i32(command.spt->0, "spt"@) is Ok;
            let four_ok = m_ok && spd_ok && sst_ok && spt_ok;
            &&& !m_ok ==> outcome == Err::<CommandedState, Seq<char>>(
                field_i32(command.m->0, "m"@)->Err_0,
            )
            &&& m_ok && !spd_ok ==> outcome == Err::<CommandedState, Seq<char>>(
                field_i32(command.spd->0, "spd"@)->Err_0,
            )
            &&& m_ok && spd_ok && !sst_ok ==> outcome == Err::<CommandedState, Seq<char>>(
                field_i32(command.sst->0, "sst"@)->Err_0,
            )
            &&& m_ok && spd_ok && sst_ok && !spt_ok ==> outcome == Err::<
                CommandedState,
                Seq<char>,
            >(field_i32(command.spt->0, "spt"@)->Err_0)
            &&& outcome is Ok <==> four_ok && relays_readable(command.relays, 8)
            &&& forall|i: int|
                0 <= i < 8 && four_ok && #[trigger] relays_readable(command.relays, i)
                    && !relay_readable(command.relays, i) ==> outcome == Err::<
                    CommandedState,
                    Seq<char>,
                >(field_switch(command.relays[i]->0, relay_key(i))->Err_0)
        }),
{
    lemma_relays_readable(command.relays, 8);
    assert forall|i: int|
        0 <= i < 8 && #[trigger] relays_readable(command.relays, i) && !relay_readable(
            command.relays,
            i,
        ) implies switch_refusal(command.relays, 8) == Some(
        field_switch(command.relays[i]->0, relay_key(i))->Err_0,
    ) by {
        lemma_relays_readable(command.relays, i);
        lemma_refusal_stays(command.relays, i + 1, 8);
    }
}

/// Whether the member of relay `i` is absent or can be read.
pub open spec fn relay_readable(relays: Seq<Option<FieldView>>, i: int) -> bool {
    relays[i] is None || field_switch(relays[i]->0, relay_key(i)) is Ok
}

/// Whether each of the first `count` relay members is absent or can be read.
pub open spec fn relays_readable(relays: Seq<Option<FieldView>>, count: int) -> bool {
    forall|i: int| 0 <= i < count ==> #[trigger] relay_readable(relays, i)
}

proof fn lemma_relays_readable(relays: Seq<Option<FieldView>>, count: int)
    requires
        0 <= count <= 8,
    ensures
        relays_readable(relays, count) <==> switch_refusal(relays, count) is None,
    decreases count,
{
    if count > 0 {
        lemma_relays_readable(relays, count - 1);
        if relays_readable(relays, count) {
            assert(relays_readable(relays, count - 1));
            assert(relay_readable(relays, count - 1));
        } else {
            if relays_readable(relays, count - 1) {
                assert(!relay_readable(relays, count - 1));
            }
        }
        if switch_refusal(relays, count) is None {
            assert(switch_refusal(relays, count - 1) is None);
        }
    }
}

/// A command reads the members `m`, `spd`, `sst`, `spt` and `r1` to `r8` of its object, each under
/// its own key, and no others.
pub proof fn law_command_keys(fields: Map<Seq<char>, FieldView>)
    ensures
        ({
            let command = command_members(fields);
            &&& command.m == fields.get("m"@)
            &&& command.spd == fields.get("spd"@)
            &&& command.sst == fields.get("sst"@)
            &&& command.spt == fields.get("spt"@)
            &&& command.relays.len() == 8
            &&& command.relays[0] == fields.get("r1"@)
            &&& command.relays[1] == fields.get("r2"@)
            &&& command.relays[2] == fields.get("r3"@)
            &&& command.relays[3] == fields.get("r4"@)
            &&& command.relays[4] == fields.get("r5"@)
            &&& command.relays[5] == fields.get("r6"@)
            &&& command.relays[6] == fields.get("r7"@)
            &&& command.relays[7] == fields.get("r8"@)
        }),
{
}

/// An outcome is its value, or the text of its refusal.
pub proof fn law_outcome_view<T>(value: T, text: String)
    ensures
        outcome_view(Ok::<T, String>(value)) == Ok::<T, Seq<char>>(value),
        outcome_view(Err::<T, String>(text)) == Err::<T, Seq<char>>(text@),
{
}

/// The members of a command are seen as they are, the relays in their order.
pub proof fn law_command_view(fields: CommandFields, i: int)
    requires
        0 <= i < 8,
    ensures
        fields@.m == field_view(fields.m),
        fields@.spd == field_view(fields.spd),
        fields@.sst == field_view(fields.sst),
        fields@.spt == field_view(fields.spt),
        fields@.relays.len() == 8,
        fields@.relays[i] == field_view(fields.relays@[i]),
{
}

/// A command marks the pump as unsent exactly where it changes the speed, and the relays exactly
/// where it has any relay member, in addition to the marks that are there. It takes over what is
/// commanded and keeps all that is measured.
pub proof fn law_command_marks_exactly(
    state: PoolState,
    command: CommandView,
    commanded: CommandedState,
)
    requires
        command.relays.len() == 8,
    ensures
        ({
            let after = state.after_command(command, commanded);
            &&& after.commanded == commanded
            &&& after.measured == state.measured
            &&& after.water_temp_settling == state.water_temp_settling
            &&& after.update_pump <==> state.update_pump || commanded.set_speed
                != state.commanded.set_speed
            &&& after.update_relays <==> state.update_relays || command.relays[0] is Some
                || command.relays[1] is Some || command.relays[2] is Some || command.relays[3] is Some
                || command.relays[4] is Some || command.relays[5] is Some || command.relays[6] is Some
                || command.relays[7] is Some
        }),
{
    assert(names_relay(command) <==> command.relays[0] is Some || command.relays[1] is Some
        || command.relays[2] is Some || command.relays[3] is Some || command.relays[4] is Some
        || command.relays[5] is Some || command.relays[6] is Some || command.relays[7] is Some);
}

} // verus!
