use crate::decode::{Decode, decode_field, decode_member, parse_field, parse_member};
use crate::json::{Json, JsonView};
use vstd::prelude::*;

verus! {

/// A player's record on one shard.
#[derive(Debug, Default, PartialEq)]
pub struct Summoner {
    pub account_id: String,
    pub profile_icon_id: i32,
    pub revision_date: i64,
    pub name: String,
    pub id: String,
    pub puuid: String,
    pub summoner_level: i64,
}

/// What a `Summoner` holds.
pub ghost struct SummonerView {
    pub account_id: Seq<char>,
    pub profile_icon_id: i32,
    pub revision_date: i64,
    pub name: Seq<char>,
    pub id: Seq<char>,
    pub puuid: Seq<char>,
    pub summoner_level: i64,
}

impl View for Summoner {
    type V = SummonerView;

    open spec fn view(&self) -> SummonerView {
        SummonerView {
            account_id: self.account_id@,
            profile_icon_id: self.profile_icon_id,
            revision_date: self.revision_date,
            name: self.name@,
            id: self.id@,
            puuid: self.puuid@,
            summoner_level: self.summoner_level,
        }
    }
}

impl DeepView for Summoner {
    type V = SummonerView;

    open spec fn deep_view(&self) -> SummonerView {
        self.view()
    }
}

impl Decode for Summoner {
    /// An object is read as a record if it has a member for every field,
    /// each of the kind of its field. Members that name no field are passed
    /// over; anything else is no record.
    open spec fn parse(json: JsonView) -> Option<SummonerView> {
        let account_id = parse_field::<String>(json, "account_id"@, "accountId"@);
        let profile_icon_id = parse_field::<i32>(json, "profile_icon_id"@, "profileIconId"@);
        let revision_date = parse_field::<i64>(json, "revision_date"@, "revisionDate"@);
        let name = parse_member::<String>(json, "name"@);
        let id = parse_member::<String>(json, "id"@);
        let puuid = parse_member::<String>(json, "puuid"@);
        let summoner_level = parse_field::<i64>(json, "summoner_level"@, "summonerLevel"@);
        if account_id is Some && profile_icon_id is Some && revision_date is Some
            && name is Some && id is Some && puuid is Some && summoner_level is Some {
            Some(
                SummonerView {
                    account_id: account_id->Some_0,
                    profile_icon_id: profile_icon_id->Some_0,
                    revision_date: revision_date->Some_0,
                    name: name->Some_0,
                    id: id->Some_0,
                    puuid: puuid->Some_0,
                    summoner_level: summoner_level->Some_0,
                },
            )
        } else {
            None
        }
    }

    fn from_json(json: &Json) -> (value: Option<Summoner>) {
        let account_id = decode_field::<String>(json, "account_id", "accountId")?;
        let profile_icon_id = decode_field::<i32>(json, "profile_icon_id", "profileIconId")?;
        let revision_date = decode_field::<i64>(json, "revision_date", "revisionDate")?;
        let name = decode_member::<String>(json, "name")?;
        let id = decode_member::<String>(json, "id")?;
        let puuid = decode_member::<String>(json, "puuid")?;
        let summoner_level = decode_field::<i64>(json, "summoner_level", "summonerLevel")?;
        Some(
            Summoner {
                account_id,
                profile_icon_id,
                revision_date,
                name,
                id,
                puuid,
                summoner_level,
            },
        )
    }
}

} // verus!
