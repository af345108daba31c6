use vstd::prelude::*;
use vstd::string::StrSliceExecFns;
use crate::data::{names_view, Data, DataView, MAP_POOL_LIMIT};
use crate::error::RegistryError;
use crate::steam::{convertible, is_steam_id, steam64, steam_id_shape, steam_id_to_64};
use crate::tables::store;

verus! {

/// How many characters a team name has at most.
pub const TEAM_NAME_LIMIT: usize = 20;

/// The state after `user` registered the game identity `id`.
pub open spec fn after_steam_id(v: DataView, user: u64, id: Seq<char>) -> DataView {
    DataView { steam_id_cache: v.steam_id_cache.insert(user, id), ..v }
}

/// The state after `user` registered the team name `name`.
pub open spec fn after_teamname(v: DataView, user: u64, name: Seq<char>) -> DataView {
    DataView { team_names: v.team_names.insert(user, name), ..v }
}

/// Why `map` cannot join the pool, if anything stands against it.
pub open spec fn add_map_refusal(v: DataView, map: Seq<char>) -> Option<RegistryError> {
    if v.maps.len() >= MAP_POOL_LIMIT {
        Some(RegistryError::PoolFull)
    } else if v.maps.contains(map) {
        Some(RegistryError::AlreadyPresent)
    } else {
        None
    }
}

/// The place of `name` in `names`, if it occurs.
fn position_of(names: &Vec<String>, name: &String) -> (r: Option<usize>)
    ensures
        match r {
            Some(i) => i < names@.len() && names_view(names@)[i as int] == name@,
            None => !names_view(names@).contains(name@),
        },
{
    let mut i: usize = 0;
    while i < names.len()
        invariant
            i <= names@.len(),
            forall|j: int| 0 <= j < i ==> #[trigger] names_view(names@)[j] != name@,
        decreases names@.len() - i,
    {
        if names[i] == *name {
            return Some(i);
        }
        i += 1;
    }
    None
}

impl Data {
    /// `user` registers a game identity, in place of an earlier one. The
    /// result is its 64-bit form, where it has one.
    pub fn steam_id(&mut self, user: u64, steam_id: String) -> (r: Result<Option<u64>, RegistryError>)
        requires
            old(self).wf(),
        ensures
            final(self).wf(),
            match r {
                Ok(profile) => {
                    &&& steam_id_shape(steam_id@)
                    &&& final(self)@ == after_steam_id(old(self)@, user, steam_id@)
                    &&& profile is Some <==> convertible(steam_id@)
                    &&& profile matches Some(id) ==> id as nat == steam64(steam_id@)
                },
                Err(e) => e == RegistryError::InvalidSteamId && !steam_id_shape(steam_id@)
                    && final(self)@ == old(self)@,
            },
    {
        if !is_steam_id(steam_id.as_str()) {
            return Err(RegistryError::InvalidSteamId);
        }
        let profile = steam_id_to_64(&steam_id);
        store(&mut self.steam_id_cache, user, steam_id);
        Ok(profile)
    }

    /// `user` registers a name for the team they may come to lead, in place
    /// of an earlier one.
    pub fn teamname(&mut self, user: u64, team_name: String) -> (r: Result<(), RegistryError>)
        requires
            old(self).wf(),
        ensures
            final(self).wf(),
            match r {
                Ok(()) => team_name@.len() <= TEAM_NAME_LIMIT && final(self)@
                    == after_teamname(old(self)@, user, team_name@),
                Err(e) => e == RegistryError::TeamNameTooLong && team_name@.len()
                    > TEAM_NAME_LIMIT && final(self)@ == old(self)@,
            },
    {
        if team_name.as_str().unicode_len() > TEAM_NAME_LIMIT {
            return Err(RegistryError::TeamNameTooLong);
        }
        store(&mut self.team_names, user, team_name);
        Ok(())
    }

    /// An admin adds a map to the pool, as its last.
    pub fn add_map(&mut self, map_name: String) -> (r: Result<(), RegistryError>)
        requires
            old(self).wf(),
        ensures
            final(self).wf(),
            match r {
                Ok(()) => add_map_refusal(old(self)@, map_name@) is None && final(self)@ == (
                DataView { maps: old(self)@.maps.push(map_name@), ..old(self)@ }),
                Err(e) => add_map_refusal(old(self)@, map_name@) == Some(e) && final(self)@ == old(
                    self)@,
            },
    {
        if self.maps.len() >= MAP_POOL_LIMIT {
            return Err(RegistryError::PoolFull);
        }
        if position_of(&self.maps, &map_name).is_some() {
            return Err(RegistryError::AlreadyPresent);
        }
        let ghost before = names_view(self.maps@);
        self.maps.push(map_name);
        assert(names_view(self.maps@) =~= before.push(map_name@));
        Ok(())
    }

    /// An admin takes a map out of the pool. The others keep their order.
    pub fn remove_map(&mut self, map_name: &String) -> (r: Result<(), RegistryError>)
        requires
            old(self).wf(),
        ensures
            final(self).wf(),
            match r {
                Ok(()) => old(self)@.maps.contains(map_name@) && final(self)@ == (DataView {
                    maps: old(self)@.maps.remove(old(self)@.maps.index_of(map_name@)),
                    ..old(self)@
                }),
                Err(e) => e == RegistryError::NotPresent && !old(self)@.maps.contains(map_name@)
                    && final(self)@ == old(self)@,
            },
    {
        let index = match position_of(&self.maps, map_name) {
            Some(index) => index,
            None => {
                return Err(RegistryError::NotPresent);
            },
        };
        let ghost before = names_view(self.maps@);
        proof {
            crate::seqs::lemma_remove_keeps_others(before, index as int);
        }
        self.maps.remove(index);
        assert(names_view(self.maps@) =~= before.remove(index as int));
        Ok(())
    }
}

} // verus!
