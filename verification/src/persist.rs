//! The commanded settings as they are kept on disk.
use vstd::prelude::*;
use vstd::std_specs::convert::FromSpec;

use crate::state::{
    law_migration_divides, migrate_spd, migrated_word, CommandedState, PoolState,
};

verus! {

/// The document on disk: the commanded settings, and nothing measured.
#[derive(Debug, Clone, Copy, PartialEq, Eq, Structural)]
pub struct PersistedState {
    pub mode: i32,
    pub set_speed: u16,
    pub set_spa_temp: i32,
    pub set_pool_temp: i32,
    pub relays: u8,
}

impl PersistedState {
    /// The document that keeps these settings.
    pub open spec fn of(commanded: CommandedState) -> PersistedState {
        PersistedState {
            mode: commanded.mode,
            set_speed: commanded.set_speed,
            set_spa_temp: commanded.set_spa_temp,
            set_pool_temp: commanded.set_pool_temp,
            relays: commanded.relays,
        }
    }

    /// The settings that the document keeps.
    pub open spec fn settings(self) -> CommandedState {
        CommandedState {
            mode: self.mode,
            set_speed: self.set_speed,
            set_spa_temp: self.set_spa_temp,
            set_pool_temp: self.set_pool_temp,
            relays: self.relays,
        }
    }

    /// The settings that the document keeps, with the speed on the 0 to 35 scale.
    pub open spec fn migrated_settings(self) -> CommandedState {
        CommandedState { set_speed: migrated_word(self.set_speed), ..self.settings() }
    }
}

impl vstd::std_specs::convert::FromSpecImpl<&CommandedState> for PersistedState {
    open spec fn obeys_from_spec() -> bool {
        true
    }

    open spec fn from_spec(cmd: &CommandedState) -> PersistedState {
        PersistedState::of(*cmd)
    }
}

impl From<&CommandedState> for PersistedState {
    fn from(cmd: &CommandedState) -> (persisted: Self) {
        PersistedState {
            mode: cmd.mode,
            set_speed: cmd.set_speed,
            set_spa_temp: cmd.set_spa_temp,
            set_pool_temp: cmd.set_pool_temp,
            relays: cmd.relays,
        }
    }
}

impl vstd::std_specs::convert::FromSpecImpl<PersistedState> for CommandedState {
    open spec fn obeys_from_spec() -> bool {
        true
    }

    open spec fn from_spec(p: PersistedState) -> CommandedState {
        p.settings()
    }
}

impl From<PersistedState> for CommandedState {
    fn from(p: PersistedState) -> (commanded: Self) {
        CommandedState {
            mode: p.mode,
            set_speed: p.set_speed,
            set_spa_temp: p.set_spa_temp,
            set_pool_temp: p.set_pool_temp,
            relays: p.relays,
        }
    }
}

/// What came of reading the settings file.
#[derive(Debug, Clone, Copy, PartialEq, Eq, Structural)]
pub enum StateFile {
    Loaded(PersistedState),
    /// The file holds no such document.
    Corrupt,
    /// There is no such file.
    Missing,
    /// The file cannot be read.
    Unreadable,
}

/// Takes the commanded settings from the settings file, or leaves them as they are where it gives
/// none. Returns whether the file is to be written anew, because its speed was on another scale.
pub fn load_into(state: &mut PoolState, file: StateFile) -> (rewrite: bool)
    ensures
        match file {
            StateFile::Loaded(persisted) => {
                &&& *final(state) == (PoolState {
                    commanded: persisted.migrated_settings(),
                    ..*old(state)
                })
                &&& rewrite == (persisted.set_speed != migrated_word(persisted.set_speed))
            },
            _ => *final(state) == *old(state) && !rewrite,
        },
{
    match file {
        StateFile::Loaded(persisted) => {
            let mut commanded = CommandedState::from(persisted);
            let before: u16 = commanded.set_speed;
            commanded.set_speed = migrate_spd(before);
            state.commanded = commanded;
            before != state.commanded.set_speed
        },
        _ => false,
    }
}

/// The document to save for a state.
pub fn document(state: &PoolState) -> (persisted: PersistedState)
    ensures
        persisted == PersistedState::of(state.commanded),
{
    PersistedState::from(&state.commanded)
}

/// Settings with a speed on the 0 to 35 scale come back from disk as they were saved, and the file
/// needs no rewrite.
pub proof fn law_saved_settings_come_back(commanded: CommandedState)
    requires
        commanded.set_speed <= 35,
    ensures
        PersistedState::of(commanded).migrated_settings() == commanded,
        PersistedState::of(commanded).set_speed == migrated_word(
            PersistedState::of(commanded).set_speed,
        ),
{
}

/// All settings but the speed come back from disk as they were saved.
pub proof fn law_other_settings_come_back(commanded: CommandedState)
    ensures
        PersistedState::of(commanded).migrated_settings() == (CommandedState {
            set_speed: migrated_word(commanded.set_speed),
            ..commanded
        }),
{
}

/// What is loaded has a speed on the 0 to 35 scale; once it is saved again, loading it again
/// changes nothing and asks for no further rewrite.
pub proof fn law_one_rewrite_is_enough(persisted: PersistedState)
    ensures
        ({
            let loaded = persisted.migrated_settings();
            let rewritten = PersistedState::of(loaded);
            &&& loaded.set_speed <= 35
            &&& rewritten.migrated_settings() == loaded
            &&& rewritten.set_speed == migrated_word(rewritten.set_speed)
        }),
{
}

/// The document keeps each setting under its own name, and gives each back as it is; a loaded speed
/// is brought onto the 0 to 35 scale, by how often 655 goes into it where it is above 35.
pub proof fn law_documents_keep_settings(commanded: CommandedState, persisted: PersistedState)
    ensures
        PersistedState::of(commanded).mode == commanded.mode,
        PersistedState::of(commanded).set_speed == commanded.set_speed,
        PersistedState::of(commanded).set_spa_temp == commanded.set_spa_temp,
        PersistedState::of(commanded).set_pool_temp == commanded.set_pool_temp,
        PersistedState::of(commanded).relays == commanded.relays,
        persisted.settings().mode == persisted.mode,
        persisted.settings().set_speed == persisted.set_speed,
        persisted.settings().set_spa_temp == persisted.set_spa_temp,
        persisted.settings().set_pool_temp == persisted.set_pool_temp,
        persisted.settings().relays == persisted.relays,
        ({
            let loaded = persisted.migrated_settings();
            &&& loaded.mode == persisted.mode
            &&& loaded.set_spa_temp == persisted.set_spa_temp
            &&& loaded.set_pool_temp == persisted.set_pool_temp
            &&& loaded.relays == persisted.relays
            &&& loaded.set_speed <= 35
            &&& persisted.set_speed <= 35 ==> loaded.set_speed == persisted.set_speed
            &&& persisted.set_speed > 35 ==> loaded.set_speed * 655 <= persisted.set_speed
            &&& persisted.set_speed > 35 && loaded.set_speed < 35 ==> persisted.set_speed < (
            loaded.set_speed + 1) * 655
        }),
{
    law_migration_divides(persisted.set_speed, 1);
}

/// Converting settings into a document and a document into settings keeps each by its name.
pub proof fn law_conversions(commanded: CommandedState, persisted: PersistedState)
    ensures
        <PersistedState as FromSpec<&CommandedState>>::obeys_from_spec(),
        <CommandedState as FromSpec<PersistedState>>::obeys_from_spec(),
        ({
            let kept: PersistedState = FromSpec::from_spec(&commanded);
            &&& kept.mode == commanded.mode
            &&& kept.set_speed == commanded.set_speed
            &&& kept.set_spa_temp == commanded.set_spa_temp
            &&& kept.set_pool_temp == commanded.set_pool_temp
            &&& kept.relays == commanded.relays
        }),
        ({
            let back: CommandedState = FromSpec::from_spec(persisted);
            &&& back.mode == persisted.mode
            &&& back.set_speed == persisted.set_speed
            &&& back.set_spa_temp == persisted.set_spa_temp
            &&& back.set_pool_temp == persisted.set_pool_temp
            &&& back.relays == persisted.relays
        }),
{
}

} // verus!
