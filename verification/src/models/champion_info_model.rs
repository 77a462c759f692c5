use crate::decode::{Decode, decode_field, parse_field};
use crate::json::{Json, JsonView};
use vstd::prelude::*;

verus! {

/// The champions that are free to play for the time being, by their
/// numbers, and the level up to which a player counts as new.
#[derive(Debug, Default, PartialEq)]
pub struct ChampionInfo {
    pub max_new_player_level: i32,
    pub free_champions_ids_for_new_players: Vec<i32>,
    pub free_champion_ids: Vec<i32>,
}

/// What a `ChampionInfo` holds.
pub ghost struct ChampionInfoView {
    pub max_new_player_level: i32,
    pub free_champions_ids_for_new_players: Seq<i32>,
    pub free_champion_ids: Seq<i32>,
}

impl View for ChampionInfo {
    type V = ChampionInfoView;

    open spec fn view(&self) -> ChampionInfoView {
        ChampionInfoView {
            max_new_player_level: self.max_new_player_level,
            free_champions_ids_for_new_players: self.free_champions_ids_for_new_players.deep_view(),
            free_champion_ids: self.free_champion_ids.deep_view(),
        }
    }
}

impl DeepView for ChampionInfo {
    type V = ChampionInfoView;

    open spec fn deep_view(&self) -> ChampionInfoView {
        self.view()
    }
}

impl Decode for ChampionInfo {
    /// An object is read as a record if it has a member for every field,
    /// each of the kind of its field. Members that name no field are passed
    /// over; anything else is no record.
    open spec fn parse(json: JsonView) -> Option<ChampionInfoView> {
        let max_new_player_level = parse_field::<i32>(
            json,
            "max_new_player_level"@,
            "maxNewPlayerLevel"@,
        );
        let free_champions_ids_for_new_players = parse_field::<Vec<i32>>(
            json,
            "free_champions_ids_for_new_players"@,
            "freeChampionIdsForNewPlayers"@,
        );
        let free_champion_ids = parse_field::<Vec<i32>>(
            json,
            "free_champion_ids"@,
            "freeChampionIds"@,
        );
        if max_new_player_level is Some && free_champions_ids_for_new_players is Some
            && free_champion_ids is Some {
            Some(
                ChampionInfoView {
                    max_new_player_level: max_new_player_level->Some_0,
                    free_champions_ids_for_new_players: free_champions_ids_for_new_players->Some_0,
                    free_champion_ids: free_champion_ids->Some_0,
                },
            )
        } else {
            None
        }
    }

    fn from_json(json: &Json) -> (value: Option<ChampionInfo>) {
        let max_new_player_level = decode_field::<i32>(
            json,
            "max_new_player_level",
            "maxNewPlayerLevel",
        )?;
        let free_champions_ids_for_new_players = decode_field::<Vec<i32>>(
            json,
            "free_champions_ids_for_new_players",
            "freeChampionIdsForNewPlayers",
        )?;
        let free_champion_ids = decode_field::<Vec<i32>>(
            json,
            "free_champion_ids",
            "freeChampionIds",
        )?;
        Some(
            ChampionInfo {
                max_new_player_level,
                free_champions_ids_for_new_players,
                free_champion_ids,
            },
        )
    }
}

} // verus!
