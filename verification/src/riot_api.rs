use crate::decode::{decode_reply, parse_reply};
use crate::filters::summoner_filter::{LookupField, SummonerFilter, SummonerFilterView};
use crate::json::{Json, JsonView};
use crate::models::champion_info_model::ChampionInfo;
use crate::models::summoner_model::{Summoner, SummonerView};
use crate::platform::{get_platform_url, service_url, Platform};
use crate::request::{authorized, Request, RequestView};
use vstd::prelude::*;
use vstd::string::StringExecFns;

verus! {

/// The address at which a token is tried out: the status of the shard NA1.
pub open spec fn status_url() -> Seq<char> {
    service_url(Platform::NA1.label()) + "/lol/status/v4/platform-data"@
}

/// The address of the rotation of free champions on a shard.
pub open spec fn rotations_url(platform: Platform) -> Seq<char> {
    service_url(platform.label()) + "/lol/platform/v3/champion-rotations"@
}

/// The path under which a shard looks a player up by `field`.
pub open spec fn lookup_path(field: LookupField) -> Seq<char> {
    match field {
        LookupField::AccountId => "/lol/summoner/v4/summoners/by-account/"@,
        LookupField::Name => "/lol/summoner/v4/summoners/by-name/"@,
        LookupField::Id => "/lol/summoner/v4/summoners/"@,
        LookupField::Puuid => "/lol/summoner/v4/summoners/by-puuid/"@,
    }
}

/// The address of the player that `field` names by `value`, which ends the
/// address as it stands.
pub open spec fn lookup_url(platform: Platform, field: LookupField, value: Seq<char>) -> Seq<char> {
    service_url(platform.label()) + lookup_path(field) + value
}

/// The request for the player that `filter` names in `field`.
pub open spec fn field_request(
    token: Seq<char>,
    platform: Platform,
    filter: SummonerFilterView,
    field: LookupField,
) -> RequestView {
    authorized(lookup_url(platform, field, filter.value(field)->Some_0), token)
}

/// The request that a lookup makes next for `filter`: for its leading
/// field, none where no field is filled in.
pub open spec fn next_request(
    token: Seq<char>,
    platform: Platform,
    filter: SummonerFilterView,
) -> Option<RequestView> {
    match filter.leading() {
        Some(field) => Some(field_request(token, platform, filter, field)),
        None => None,
    }
}

/// Where a lookup stands after a reply.
#[derive(Debug, PartialEq)]
pub enum Lookup {
    /// The reply held the player's record: the lookup is over.
    Found(Summoner),
    /// The reply held none. The field that was tried is emptied in `rest`,
    /// and `request` asks for the leading field of what is left.
    Retry { rest: SummonerFilter, request: Request },
    /// No field is left to try: the lookup is over, and found nobody.
    NotFound,
}

pub ghost enum LookupView {
    Found(SummonerView),
    Retry { rest: SummonerFilterView, request: RequestView },
    NotFound,
}

impl View for Lookup {
    type V = LookupView;

    open spec fn view(&self) -> LookupView {
        match self {
            Lookup::Found(record) => LookupView::Found(record@),
            Lookup::Retry { rest, request } => LookupView::Retry { rest: rest@, request: request@ },
            Lookup::NotFound => LookupView::NotFound,
        }
    }
}

/// One step of a lookup: `reply` answers the request for the leading field
/// of `filter`. A reply that holds a record ends the lookup with it. After
/// any other reply the lookup goes on without that field, and ends where
/// none is left.
pub open spec fn lookup_step(
    token: Seq<char>,
    platform: Platform,
    filter: SummonerFilterView,
    reply: Option<JsonView>,
) -> LookupView {
    match filter.leading() {
        None => LookupView::NotFound,
        Some(field) => match parse_reply::<Summoner>(reply) {
            Some(record) => LookupView::Found(record),
            None => {
                let rest = filter.without(field);
                match next_request(token, platform, rest) {
                    Some(request) => LookupView::Retry { rest, request },
                    None => LookupView::NotFound,
                }
            },
        },
    }
}

/// A client of the game service. It holds the caller's token and builds the
/// requests that carry it; the caller performs them and hands the replies
/// back.
#[derive(Debug, PartialEq)]
pub struct RiotApi {
    token: String,
}

impl RiotApi {
    /// The token that the client holds.
    pub closed spec fn held_token(&self) -> Seq<char> {
        self.token@
    }

    /// The request that tries `token` out. Whether it succeeded is what `new`
    /// asks for.
    pub fn token_probe(token: &str) -> (request: Request)
        ensures
            request@ == authorized(status_url(), token@),
    {
        let url = get_platform_url(&Platform::NA1).concat("/lol/status/v4/platform-data");
        Request { url, token: Some(String::from_str(token)) }
    }

    /// A client that holds `token`, if the probe of that token succeeded;
    /// none if it failed.
    pub fn new(token: &str, probe_succeeded: bool) -> (api: Option<RiotApi>)
        ensures
            api is Some <==> probe_succeeded,
            api matches Some(a) ==> a.held_token() == token@,
    {
        if probe_succeeded {
            Some(RiotApi { token: String::from_str(token) })
        } else {
            None
        }
    }

    /// A client that holds `token`, which nothing has tried out.
    pub fn new_unchecked(token: &str) -> (api: RiotApi)
        ensures
            api.held_token() == token@,
    {
        RiotApi { token: String::from_str(token) }
    }

    /// The token that the client holds.
    pub fn token(&self) -> (token: &String)
        ensures
            token@ == self.held_token(),
    {
        &self.token
    }

    /// The request for the rotation of free champions on `platform`.
    pub fn champion_rotations_request(&self, platform: &Platform) -> (request: Request)
        ensures
            request@ == authorized(rotations_url(*platform), self.held_token()),
    {
        let url = get_platform_url(platform).concat("/lol/platform/v3/champion-rotations");
        Request { url, token: Some(self.token.clone()) }
    }

    /// The rotation that `reply` holds; none where the round trip failed or
    /// the body is no rotation.
    pub fn get_champion_rotations(&self, reply: &Option<Json>) -> (rotation: Option<ChampionInfo>)
        ensures
            rotation.deep_view() == parse_reply::<ChampionInfo>(reply.deep_view()),
    {
        decode_reply::<ChampionInfo>(reply)
    }

    /// The request for the player that `field` names by `value`.
    pub fn lookup_request(
        &self,
        platform: &Platform,
        field: LookupField,
        value: &str,
    ) -> (request: Request)
        ensures
            request@ == authorized(lookup_url(*platform, field, value@), self.held_token()),
    {
        let path = match field {
            LookupField::AccountId => "/lol/summoner/v4/summoners/by-account/",
            LookupField::Name => "/lol/summoner/v4/summoners/by-name/",
            LookupField::Id => "/lol/summoner/v4/summoners/",
            LookupField::Puuid => "/lol/summoner/v4/summoners/by-puuid/",
        };
        let url = get_platform_url(platform).concat(path).concat(value);
        Request { url, token: Some(self.token.clone()) }
    }

    /// The request with which a lookup by `summoner` begins, and goes on
    /// after a `Retry`: for the leading field. None where no field is filled
    /// in: such a lookup finds nobody, and asks nothing.
    pub fn summoner_request(
        &self,
        platform: &Platform,
        summoner: &SummonerFilter,
    ) -> (request: Option<Request>)
        ensures
            request.deep_view() == next_request(self.held_token(), *platform, summoner@),
    {
        match summoner.leading() {
            Some(field) => match summoner.value(field) {
                Some(value) => Some(self.lookup_request(platform, field, value.as_str())),
                None => None,
            },
            None => None,
        }
    }

    /// One step of the lookup of a player. `reply` is what came back for
    /// `summoner_request` of the same filter: the body, or none where the
    /// round trip failed. The fields are tried in a fixed order, and the
    /// first whose reply holds a record decides.
    pub fn get_summoner(
        &self,
        platform: &Platform,
        summoner: SummonerFilter,
        reply: &Option<Json>,
    ) -> (step: Lookup)
        ensures
            step@ == lookup_step(self.held_token(), *platform, summoner@, reply.deep_view()),
    {
        let field = match summoner.leading() {
            Some(field) => field,
            None => {
                return Lookup::NotFound;
            },
        };
        match decode_reply::<Summoner>(reply) {
            Some(record) => Lookup::Found(record),
            None => {
                let rest = summoner.without(field);
                match self.summoner_request(platform, &rest) {
                    Some(request) => Lookup::Retry { rest, request },
                    None => Lookup::NotFound,
                }
            },
        }
    }
}

/// What a whole lookup finds at a service, taken as what it answers to each
/// request: the record in the first answer that holds one, the fields of
/// the filter asked for in their order.
pub open spec fn lookup_outcome(
    token: Seq<char>,
    platform: Platform,
    filter: SummonerFilterView,
    service: spec_fn(RequestView) -> Option<JsonView>,
) -> Option<SummonerView>
    decreases filter.filled(),
{
    match filter.leading() {
        None => None,
        Some(field) => match parse_reply::<Summoner>(
            service(field_request(token, platform, filter, field)),
        ) {
            Some(record) => Some(record),
            None => lookup_outcome(token, platform, filter.without(field), service),
        },
    }
}

/// What a record holds in the field by which a lookup names a player.
pub open spec fn identifier(record: SummonerView, field: LookupField) -> Seq<char> {
    match field {
        LookupField::AccountId => record.account_id,
        LookupField::Name => record.name,
        LookupField::Id => record.id,
        LookupField::Puuid => record.puuid,
    }
}

/// Each step of a lookup keeps to the outcome of the whole. Fed with what
/// the service answers to the request for the leading field, a step that
/// finds a record has found the outcome. A step that asks again has emptied
/// the field it tried and nothing else, asks for the leading field of the
/// rest, and leaves the outcome to the rest. A step that gives up does so
/// only where the outcome is nobody.
pub proof fn lemma_step_keeps_outcome(
    token: Seq<char>,
    platform: Platform,
    filter: SummonerFilterView,
    service: spec_fn(RequestView) -> Option<JsonView>,
)
    requires
        filter.leading() is Some,
    ensures
        match lookup_step(
            token,
            platform,
            filter,
            service(next_request(token, platform, filter)->Some_0),
        ) {
            LookupView::Found(record) => lookup_outcome(token, platform, filter, service) == Some(
                record,
            ),
            LookupView::Retry { rest, request } => {
                &&& rest == filter.without(filter.leading()->Some_0)
                &&& rest.filled() + 1 == filter.filled()
                &&& next_request(token, platform, rest) == Some(request)
                &&& lookup_outcome(token, platform, filter, service) == lookup_outcome(
                    token,
                    platform,
                    rest,
                    service,
                )
            },
            LookupView::NotFound => lookup_outcome(token, platform, filter, service) is None,
        },
{
    let field = filter.leading()->Some_0;
    let rest = filter.without(field);
    let reply = service(field_request(token, platform, filter, field));
    if parse_reply::<Summoner>(reply) is None && rest.leading() is None {
        assert(lookup_outcome(token, platform, rest, service) is None);
    }
}

/// The order of the fields decides, not the quality of the match: the
/// record in the answer to the request for a field is the outcome whenever
/// no field before it, in the order of the lookup, is filled in and
/// answered with a record.
pub proof fn lemma_first_record_wins(
    token: Seq<char>,
    platform: Platform,
    filter: SummonerFilterView,
    service: spec_fn(RequestView) -> Option<JsonView>,
    field: LookupField,
)
    requires
        filter.value(field) is Some,
        parse_reply::<Summoner>(service(field_request(token, platform, filter, field))) is Some,
        forall|earlier: LookupField|
            earlier.rank() < field.rank() && filter.value(earlier) is Some ==> parse_reply::<
                Summoner,
            >(service(#[trigger] field_request(token, platform, filter, earlier))) is None,
    ensures
        lookup_outcome(token, platform, filter, service) == parse_reply::<Summoner>(
            service(field_request(token, platform, filter, field)),
        ),
    decreases filter.filled(),
{
    let leading = filter.leading()->Some_0;
    if leading != field {
        assert(leading.rank() < field.rank());
        assert(filter.value(leading) is Some);
        let rest = filter.without(leading);
        assert(rest.value(field) is Some);
        assert(field_request(token, platform, rest, field) == field_request(
            token,
            platform,
            filter,
            field,
        ));
        assert(parse_reply::<Summoner>(
            service(field_request(token, platform, filter, leading)),
        ) is None);
        assert forall|earlier: LookupField|
            earlier.rank() < field.rank() && rest.value(earlier) is Some implies parse_reply::<
            Summoner,
        >(service(#[trigger] field_request(token, platform, rest, earlier))) is None by {
            assert(filter.value(earlier) is Some);
            assert(field_request(token, platform, rest, earlier) == field_request(
                token,
                platform,
                filter,
                earlier,
            ));
        }
        lemma_first_record_wins(token, platform, rest, service, field);
    }
}

/// A lookup by an account identifier and a name, of which the first is
/// answered without a record and the second with one, finds that record.
pub proof fn lemma_name_stands_in_for_account(
    token: Seq<char>,
    platform: Platform,
    filter: SummonerFilterView,
    service: spec_fn(RequestView) -> Option<JsonView>,
)
    requires
        filter.account_id is Some,
        filter.name is Some,
        parse_reply::<Summoner>(
            service(field_request(token, platform, filter, LookupField::AccountId)),
        ) is None,
        parse_reply::<Summoner>(
            service(field_request(token, platform, filter, LookupField::Name)),
        ) is Some,
    ensures
        lookup_outcome(token, platform, filter, service) == parse_reply::<Summoner>(
            service(field_request(token, platform, filter, LookupField::Name)),
        ),
{
    assert forall|earlier: LookupField|
        earlier.rank() < LookupField::Name.rank() && filter.value(earlier) is Some implies {
            parse_reply::<Summoner>(
                service(#[trigger] field_request(token, platform, filter, earlier)),
            ) is None
        } by {
        assert(earlier == LookupField::AccountId);
    }
    lemma_first_record_wins(token, platform, filter, service, LookupField::Name);
}

/// A lookup none of whose requests is answered with a record finds nobody:
/// it ends, and without a record. So does a lookup by an empty filter.
pub proof fn lemma_exhausted_lookup_finds_nobody(
    token: Seq<char>,
    platform: Platform,
    filter: SummonerFilterView,
    service: spec_fn(RequestView) -> Option<JsonView>,
)
    requires
        forall|field: LookupField|
            filter.value(field) is Some ==> parse_reply::<Summoner>(
                service(#[trigger] field_request(token, platform, filter, field)),
            ) is None,
    ensures
        lookup_outcome(token, platform, filter, service) is None,
    decreases filter.filled(),
{
    match filter.leading() {
        Some(field) => {
            assert(filter.value(field) is Some);
            assert(parse_reply::<Summoner>(
                service(field_request(token, platform, filter, field)),
            ) is None);
            let rest = filter.without(field);
            assert forall|other: LookupField| rest.value(other) is Some implies parse_reply::<
                Summoner,
            >(service(#[trigger] field_request(token, platform, rest, other))) is None by {
                assert(filter.value(other) is Some);
                assert(field_request(token, platform, rest, other) == field_request(
                    token,
                    platform,
                    filter,
                    other,
                ));
            }
            lemma_exhausted_lookup_finds_nobody(token, platform, rest, service);
        },
        None => {},
    }
}

/// A lookup has an outcome only from a field that is filled in, and the
/// outcome is the record in the answer to the request for that field,
/// whole.
pub proof fn lemma_outcome_comes_from_an_answer(
    token: Seq<char>,
    platform: Platform,
    filter: SummonerFilterView,
    service: spec_fn(RequestView) -> Option<JsonView>,
)
    requires
        lookup_outcome(token, platform, filter, service) is Some,
    ensures
        exists|field: LookupField|
            filter.value(field) is Some && lookup_outcome(token, platform, filter, service)
                == parse_reply::<Summoner>(
                service(#[trigger] field_request(token, platform, filter, field)),
            ),
    decreases filter.filled(),
{
    let field = filter.leading()->Some_0;
    assert(filter.value(field) is Some);
    if parse_reply::<Summoner>(service(field_request(token, platform, filter, field))) is None {
        let rest = filter.without(field);
        lemma_outcome_comes_from_an_answer(token, platform, rest, service);
        let other = choose|other: LookupField|
            rest.value(other) is Some && lookup_outcome(token, platform, rest, service)
                == parse_reply::<Summoner>(
                service(#[trigger] field_request(token, platform, rest, other)),
            );
        assert(filter.value(other) is Some);
        assert(field_request(token, platform, rest, other) == field_request(
            token,
            platform,
            filter,
            other,
        ));
    }
}

/// A lookup by one field hands on what the service answered. Where the
/// answer to the request for that field holds the record of the player
/// that the field names, the lookup finds a record, and that record holds
/// in this field just what the filter held.
pub proof fn lemma_lookup_echoes_its_field(
    token: Seq<char>,
    platform: Platform,
    filter: SummonerFilterView,
    service: spec_fn(RequestView) -> Option<JsonView>,
    field: LookupField,
)
    requires
        filter.value(field) is Some,
        forall|other: LookupField| other != field ==> filter.value(other) is None,
        parse_reply::<Summoner>(
            service(field_request(token, platform, filter, field)),
        ) matches Some(record) && identifier(record, field) == filter.value(field)->Some_0,
    ensures
        lookup_outcome(token, platform, filter, service) matches Some(record) && identifier(
            record,
            field,
        ) == filter.value(field)->Some_0,
{
    lemma_first_record_wins(token, platform, filter, service, field);
}

} // verus!
