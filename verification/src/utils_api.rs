use crate::decode::{
    decode_member, decode_values, parse_each, parse_member, parse_reply, values, Decode,
};
use crate::json::{first_member, Json, JsonView};
use crate::models::champion_model::{Champion, ChampionView};
use crate::models::rune_model::{Rune, RuneView};
use crate::request::{anonymous, Request};
use vstd::prelude::*;
use vstd::string::StringExecFns;

verus! {

/// The origin of the static content.
pub const SERVER: &'static str = "https://ddragon.leagueoflegends.com";

/// The origin of the static content, as its characters.
pub open spec fn cdn() -> Seq<char> {
    SERVER@
}

/// The address of the manifest of versions, the newest first.
pub open spec fn versions_url() -> Seq<char> {
    cdn() + "/api/versions.json"@
}

/// The address of the manifest of languages.
pub open spec fn languages_url() -> Seq<char> {
    cdn() + "/cdn/languages.json"@
}

/// The address of the catalog of champions in one version and language.
pub open spec fn champions_url(version: Seq<char>, language: Seq<char>) -> Seq<char> {
    cdn() + "/cdn/"@ + version + "/data/"@ + language + "/championFull.json"@
}

/// The address of the catalog of runes in one version and language.
pub open spec fn runes_url(version: Seq<char>, language: Seq<char>) -> Seq<char> {
    cdn() + "/cdn/"@ + version + "/data/"@ + language + "/runesReforged.json"@
}

/// The entries of a list: the items of the array that the reply holds.
pub open spec fn entries_of(reply: Option<JsonView>) -> Option<Seq<JsonView>> {
    match reply {
        Some(JsonView::Array(entries)) => Some(entries),
        _ => None,
    }
}

/// Whether a manifest lists the text `entry`.
pub open spec fn lists(reply: Option<JsonView>, entry: Seq<char>) -> bool {
    entries_of(reply) matches Some(entries) && entries.contains(JsonView::Text(entry))
}

/// The first entry of a manifest, where it has one and that is a text.
pub open spec fn newest(reply: Option<JsonView>) -> Option<Seq<char>> {
    match entries_of(reply) {
        Some(entries) => if entries.len() > 0 {
            String::parse(entries[0])
        } else {
            None
        },
        None => None,
    }
}

/// The members of the object that a catalog of champions holds under `data`.
pub open spec fn champion_entries(reply: Option<JsonView>) -> Option<Seq<(Seq<char>, JsonView)>> {
    match reply {
        Some(document) => match document.member("data"@) {
            Some(JsonView::Object(members)) => Some(members),
            _ => None,
        },
        None => None,
    }
}

/// The names of the members of an object, in their order.
pub open spec fn keys(members: Seq<(Seq<char>, JsonView)>) -> Seq<Seq<char>> {
    Seq::new(members.len(), |i: int| members[i].0)
}

/// The champions of a catalog, in the order of its entries: all of them, or
/// none where any entry is no champion.
pub open spec fn champion_catalog(reply: Option<JsonView>) -> Option<Seq<ChampionView>> {
    match champion_entries(reply) {
        Some(members) => parse_each::<Champion>(values(members)),
        None => None,
    }
}

/// The champion that a catalog holds under `name`.
pub open spec fn champion_named(reply: Option<JsonView>, name: Seq<char>) -> Option<ChampionView> {
    match champion_entries(reply) {
        Some(members) => match first_member(members, name) {
            Some(entry) => Champion::parse(entry),
            None => None,
        },
        None => None,
    }
}

/// The trees of a catalog of runes, in the order of its entries: all of
/// them, or none where any entry is no tree.
pub open spec fn rune_catalog(reply: Option<JsonView>) -> Option<Seq<RuneView>> {
    parse_reply::<Vec<Rune>>(reply)
}

/// The name of each of `entries`, if each has one.
pub open spec fn entry_names(entries: Seq<JsonView>) -> Option<Seq<Seq<char>>> {
    if forall|i: int|
        0 <= i < entries.len() ==> (#[trigger] parse_member::<String>(
            entries[i],
            "name"@,
        )) is Some {
        Some(Seq::new(entries.len(), |i: int| parse_member::<String>(entries[i], "name"@)->Some_0))
    } else {
        None
    }
}

/// The tree of a catalog of runes that is named `name`: the first such
/// entry, read as a tree. None where an entry of the catalog has no name.
pub open spec fn rune_named(reply: Option<JsonView>, name: Seq<char>) -> Option<RuneView> {
    match entries_of(reply) {
        Some(entries) => match entry_names(entries) {
            Some(names) => match names.index_of_first(name) {
                Some(i) => Rune::parse(entries[i]),
                None => None,
            },
            None => None,
        },
        None => None,
    }
}

/// A client of the static content. It holds a version and a language, and
/// builds the requests for the catalogs of both; the caller performs them
/// and hands the replies back.
#[derive(Debug, PartialEq)]
pub struct UtilsApi {
    pub version: String,
    pub language: String,
}

pub ghost struct UtilsApiView {
    pub version: Seq<char>,
    pub language: Seq<char>,
}

impl View for UtilsApi {
    type V = UtilsApiView;

    open spec fn view(&self) -> UtilsApiView {
        UtilsApiView { version: self.version@, language: self.language@ }
    }
}

impl DeepView for UtilsApi {
    type V = UtilsApiView;

    open spec fn deep_view(&self) -> UtilsApiView {
        self.view()
    }
}

impl Default for UtilsApi {
    /// The client for version 12.12.1 in American English.
    fn default() -> (api: UtilsApi)
        ensures
            api@ == (UtilsApiView { version: "12.12.1"@, language: "en_US"@ }),
    {
        UtilsApi { version: String::from_str("12.12.1"), language: String::from_str("en_US") }
    }
}

/// The client that `latest` makes: for the newest version, if the manifest
/// of versions has one and that of languages lists `language`.
pub open spec fn latest_client(
    language: Seq<char>,
    versions: Option<JsonView>,
    languages: Option<JsonView>,
) -> Option<UtilsApiView> {
    match newest(versions) {
        Some(version) => if lists(languages, language) {
            Some(UtilsApiView { version, language })
        } else {
            None
        },
        None => None,
    }
}

/// The client that `new` makes: for `version` and `language`, if each
/// manifest lists its own.
pub open spec fn chosen_client(
    version: Seq<char>,
    language: Seq<char>,
    versions: Option<JsonView>,
    languages: Option<JsonView>,
) -> Option<UtilsApiView> {
    if lists(versions, version) && lists(languages, language) {
        Some(UtilsApiView { version, language })
    } else {
        None
    }
}

/// The request for the manifest of versions.
pub fn versions_request() -> (request: Request)
    ensures
        request@ == anonymous(versions_url()),
{
    let url = String::from_str(SERVER).concat("/api/versions.json");
    Request { url, token: None }
}

/// The request for the manifest of languages.
pub fn languages_request() -> (request: Request)
    ensures
        request@ == anonymous(languages_url()),
{
    let url = String::from_str(SERVER).concat("/cdn/languages.json");
    Request { url, token: None }
}

/// Whether the manifest that `reply` holds lists `entry`. A reply that is
/// no manifest lists nothing.
pub fn is_available(entry: &str, reply: &Option<Json>) -> (listed: bool)
    ensures
        listed == lists(reply.deep_view(), entry@),
{
    let entries = match reply {
        Some(document) => match document.as_array() {
            Some(entries) => entries,
            None => {
                return false;
            },
        },
        None => {
            return false;
        },
    };
    let wanted = String::from_str(entry);
    let ghost views = entries.deep_view();
    let mut i: usize = 0;
    while i < entries.len()
        invariant
            i <= entries.len(),
            views == entries.deep_view(),
            reply.deep_view() == Some(JsonView::Array(views)),
            wanted@ == entry@,
            forall|k: int| 0 <= k < i ==> views[k] != JsonView::Text(entry@),
        decreases entries.len() - i,
    {
        assert(views[i as int] == entries@[i as int]@);
        match entries[i].as_text() {
            Some(text) => {
                if *text == wanted {
                    assert(views[i as int] == JsonView::Text(entry@));
                    return true;
                }
            },
            None => {},
        }
        i += 1;
    }
    false
}

/// The newest version: the first entry of the manifest that `reply` holds.
pub fn get_latest_version(reply: &Option<Json>) -> (version: Option<String>)
    ensures
        version.deep_view() == newest(reply.deep_view()),
{
    match reply {
        Some(document) => match document.as_array() {
            Some(entries) => {
                if entries.len() > 0 {
                    assert(entries.deep_view()[0] == entries@[0]@);
                    String::from_json(&entries[0])
                } else {
                    None
                }
            },
            None => None,
        },
        None => None,
    }
}

/// The champions of the catalog that `reply` holds, in the order of its
/// entries. One entry that is no champion fails the whole catalog.
pub fn decode_champions(reply: &Option<Json>) -> (champions: Option<Vec<Champion>>)
    ensures
        champions.deep_view() == champion_catalog(reply.deep_view()),
{
    let document = match reply {
        Some(document) => document,
        None => {
            return None;
        },
    };
    let data = match document.get("data") {
        Some(data) => data,
        None => {
            return None;
        },
    };
    match data.as_object() {
        Some(members) => decode_values(members),
        None => None,
    }
}

/// The champion that the catalog in `reply` holds under `name`. Only that
/// entry is read.
pub fn decode_champion(reply: &Option<Json>, name: &str) -> (champion: Option<Champion>)
    ensures
        champion.deep_view() == champion_named(reply.deep_view(), name@),
{
    let document = match reply {
        Some(document) => document,
        None => {
            return None;
        },
    };
    let data = match document.get("data") {
        Some(data) => data,
        None => {
            return None;
        },
    };
    if data.as_object().is_none() {
        return None;
    }
    match data.get(name) {
        Some(entry) => Champion::from_json(entry),
        None => None,
    }
}

/// The trees of the catalog of runes that `reply` holds, in the order of
/// its entries. One entry that is no tree fails the whole catalog.
pub fn decode_runes(reply: &Option<Json>) -> (runes: Option<Vec<Rune>>)
    ensures
        runes.deep_view() == rune_catalog(reply.deep_view()),
{
    match reply {
        Some(document) => Vec::<Rune>::from_json(document),
        None => None,
    }
}

/// The tree named `name` in the catalog of runes that `reply` holds: the
/// first entry of that name. Every entry must have a name; only the one
/// that is found is read as a tree.
pub fn decode_rune(reply: &Option<Json>, name: &str) -> (rune: Option<Rune>)
    ensures
        rune.deep_view() == rune_named(reply.deep_view(), name@),
{
    let entries = match reply {
        Some(document) => match document.as_array() {
            Some(entries) => entries,
            None => {
                return None;
            },
        },
        None => {
            return None;
        },
    };
    let wanted = String::from_str(name);
    let ghost views = entries.deep_view();
    let mut first: Option<usize> = None;
    let mut i: usize = 0;
    while i < entries.len()
        invariant
            i <= entries.len(),
            views == entries.deep_view(),
            entries_of(reply.deep_view()) == Some(views),
            wanted@ == name@,
            forall|k: int|
                0 <= k < i ==> (#[trigger] parse_member::<String>(views[k], "name"@)) is Some,
            match first {
                Some(f) => f < i && parse_member::<String>(views[f as int], "name"@) == Some(name@)
                    && forall|k: int|
                    0 <= k < f ==> (#[trigger] parse_member::<String>(views[k], "name"@)) != Some(
                        name@,
                    ),
                None => forall|k: int|
                    0 <= k < i ==> (#[trigger] parse_member::<String>(views[k], "name"@)) != Some(
                        name@,
                    ),
            },
        decreases entries.len() - i,
    {
        assert(views[i as int] == entries@[i as int]@);
        match decode_member::<String>(&entries[i], "name") {
            Some(found) => {
                if first.is_none() && found == wanted {
                    first = Some(i);
                }
            },
            None => {
                return None;
            },
        }
        i += 1;
    }
    proof {
        let names = entry_names(views)->Some_0;
        names.index_of_first_ensures(name@);
        match first {
            Some(f) => {
                assert(names[f as int] == name@);
                let g = names.index_of_first(name@)->Some_0;
                assert(g == f) by {
                    if g < f {
                        assert(parse_member::<String>(views[g], "name"@) != Some(name@));
                    }
                }
            },
            None => {
                if names.contains(name@) {
                    let k = choose|k: int| 0 <= k < names.len() && names[k] == name@;
                    assert(parse_member::<String>(views[k], "name"@) != Some(name@));
                }
            },
        }
    }
    match first {
        Some(f) => Rune::from_json(&entries[f]),
        None => None,
    }
}

impl UtilsApi {
    /// A client for the newest version and for `language`. `versions` and
    /// `languages` are the replies to `versions_request` and to
    /// `languages_request`. The version is the first that the manifest
    /// lists; there is no client where either round trip failed, the
    /// manifest of versions has no first entry, or that of languages does
    /// not list `language`.
    pub fn latest(
        language: &str,
        versions: &Option<Json>,
        languages: &Option<Json>,
    ) -> (api: Option<UtilsApi>)
        ensures
            api.deep_view() == latest_client(
                language@,
                versions.deep_view(),
                languages.deep_view(),
            ),
    {
        let listed = is_available(language, languages);
        match get_latest_version(versions) {
            Some(version) => {
                if listed {
                    Some(UtilsApi { version, language: String::from_str(language) })
                } else {
                    None
                }
            },
            None => None,
        }
    }

    /// A client for `version` and `language`, if the manifests in `versions`
    /// and `languages` list them; none if either does not, or either round
    /// trip failed.
    pub fn new(
        version: &str,
        language: &str,
        versions: &Option<Json>,
        languages: &Option<Json>,
    ) -> (api: Option<UtilsApi>)
        ensures
            api.deep_view() == chosen_client(
                version@,
                language@,
                versions.deep_view(),
                languages.deep_view(),
            ),
    {
        if is_available(language, languages) && is_available(version, versions) {
            Some(
                UtilsApi {
                    version: String::from_str(version),
                    language: String::from_str(language),
                },
            )
        } else {
            None
        }
    }

    /// The address of one of the two catalogs, which `file` picks.
    fn data_url(&self, file: &str) -> (url: String)
        ensures
            url@ == cdn() + "/cdn/"@ + self.version@ + "/data/"@ + self.language@ + file@,
    {
        String::from_str(SERVER).concat("/cdn/").concat(
            self.version.as_str(),
        ).concat("/data/").concat(self.language.as_str()).concat(file)
    }

    /// The request for the catalog of champions in the client's version and
    /// language.
    pub fn champions_request(&self) -> (request: Request)
        ensures
            request@ == anonymous(champions_url(self.version@, self.language@)),
    {
        Request { url: self.data_url("/championFull.json"), token: None }
    }

    /// The request for the catalog of runes in the client's version and
    /// language.
    pub fn runes_request(&self) -> (request: Request)
        ensures
            request@ == anonymous(runes_url(self.version@, self.language@)),
    {
        Request { url: self.data_url("/runesReforged.json"), token: None }
    }

    /// All champions of the catalog that `reply` holds, in its order; none
    /// at all where the round trip failed or the catalog cannot be read as
    /// a whole.
    pub fn get_all_champions(&self, reply: &Option<Json>) -> (champions: Vec<Champion>)
        ensures
            champions.deep_view() == match champion_catalog(reply.deep_view()) {
                Some(catalog) => catalog,
                None => Seq::empty(),
            },
    {
        match decode_champions(reply) {
            Some(champions) => champions,
            None => {
                let champions: Vec<Champion> = Vec::new();
                assert(champions.deep_view() =~= Seq::empty());
                champions
            },
        }
    }

    /// The champion that the catalog in `reply` holds under `name`.
    pub fn get_champion(&self, name: String, reply: &Option<Json>) -> (champion: Option<Champion>)
        ensures
            champion.deep_view() == champion_named(reply.deep_view(), name@),
    {
        decode_champion(reply, name.as_str())
    }

    /// The tree named `name` in the catalog of runes that `reply` holds,
    /// the first where several have the name.
    pub fn get_rune(&self, name: String, reply: &Option<Json>) -> (rune: Option<Rune>)
        ensures
            rune.deep_view() == rune_named(reply.deep_view(), name@),
    {
        decode_rune(reply, name.as_str())
    }

    /// All trees of the catalog of runes that `reply` holds, in its order;
    /// none at all where the round trip failed or the catalog cannot be
    /// read as a whole.
    pub fn get_all_runes(&self, reply: &Option<Json>) -> (runes: Vec<Rune>)
        ensures
            runes.deep_view() == match rune_catalog(reply.deep_view()) {
                Some(catalog) => catalog,
                None => Seq::empty(),
            },
    {
        match decode_runes(reply) {
            Some(runes) => runes,
            None => {
                let runes: Vec<Rune> = Vec::new();
                assert(runes.deep_view() =~= Seq::empty());
                runes
            },
        }
    }
}

/// The names of the trees of a catalog, in its order.
pub open spec fn rune_names(catalog: Seq<RuneView>) -> Seq<Seq<char>> {
    Seq::new(catalog.len(), |i: int| catalog[i].name)
}

/// A member is looked up by the first place at which its name stands.
pub proof fn lemma_first_member_is_first_key(members: Seq<(Seq<char>, JsonView)>, key: Seq<char>)
    ensures
        match keys(members).index_of_first(key) {
            Some(i) => 0 <= i < members.len() && first_member(members, key) == Some(members[i].1),
            None => first_member(members, key) is None,
        },
    decreases members.len(),
{
    let names = keys(members);
    names.index_of_first_ensures(key);
    if members.len() > 0 {
        if members[0].0 == key {
            assert(names[0] == key);
        } else {
            let rest = members.drop_first();
            let rest_names = keys(rest);
            lemma_first_member_is_first_key(rest, key);
            rest_names.index_of_first_ensures(key);
            assert forall|j: int| 0 <= j < rest_names.len() implies rest_names[j] == names[j
                + 1] by {}
            match rest_names.index_of_first(key) {
                Some(i) => {
                    assert(names[i + 1] == key);
                    let at = names.index_of_first(key)->Some_0;
                    assert(names[0] != key);
                    if at < i + 1 {
                        assert(rest_names[at - 1] == key);
                    }
                    assert(at == i + 1);
                },
                None => {
                    if names.contains(key) {
                        let at = choose|at: int| 0 <= at < names.len() && names[at] == key;
                        assert(names[0] != key);
                        assert(rest_names[at - 1] == key);
                    }
                },
            }
        }
    }
}

/// Looking one tree up agrees with reading the whole catalog. Where the
/// catalog can be read, a name that none of its trees has finds nothing,
/// and a name that some have finds the first of them, equal to the entry
/// of the catalog at that place.
pub proof fn lemma_rune_lookup_agrees_with_catalog(reply: Option<JsonView>, name: Seq<char>)
    requires
        rune_catalog(reply) is Some,
    ensures
        match rune_names(rune_catalog(reply)->Some_0).index_of_first(name) {
            Some(i) => {
                &&& 0 <= i < rune_catalog(reply)->Some_0.len()
                &&& rune_named(reply, name) == Some(rune_catalog(reply)->Some_0[i])
            },
            None => rune_named(reply, name) is None,
        },
{
    let entries = entries_of(reply)->Some_0;
    let catalog = rune_catalog(reply)->Some_0;
    assert forall|i: int| 0 <= i < entries.len() implies (#[trigger] parse_member::<String>(
        entries[i],
        "name"@,
    )) == Some(catalog[i].name) by {
        assert(Rune::parse(entries[i]) == Some(catalog[i]));
    }
    assert(entry_names(entries)->Some_0 =~= rune_names(catalog));
    rune_names(catalog).index_of_first_ensures(name);
    match rune_names(catalog).index_of_first(name) {
        Some(i) => {
            assert(Rune::parse(entries[i]) == Some(catalog[i]));
        },
        None => {},
    }
}

/// Looking one champion up agrees with reading the whole catalog. Where the
/// catalog can be read, a name under which it holds no entry finds nothing,
/// and a name under which it holds one finds the champion equal to the
/// entry of the catalog at that place.
pub proof fn lemma_champion_lookup_agrees_with_catalog(reply: Option<JsonView>, name: Seq<char>)
    requires
        champion_catalog(reply) is Some,
    ensures
        match keys(champion_entries(reply)->Some_0).index_of_first(name) {
            Some(i) => {
                &&& 0 <= i < champion_catalog(reply)->Some_0.len()
                &&& champion_named(reply, name) == Some(champion_catalog(reply)->Some_0[i])
            },
            None => champion_named(reply, name) is None,
        },
{
    let members = champion_entries(reply)->Some_0;
    let catalog = champion_catalog(reply)->Some_0;
    lemma_first_member_is_first_key(members, name);
    match keys(members).index_of_first(name) {
        Some(i) => {
            assert(values(members)[i] == members[i].1);
            assert(Champion::parse(values(members)[i]) == Some(catalog[i]));
        },
        None => {},
    }
}

/// Reading a catalog twice gives the same: two clients of one version and
/// language ask at the same addresses, and two replies that hold the same
/// document are read as the same trees and the same champions, in the same
/// order.
pub proof fn lemma_catalog_fetch_repeats(
    first: UtilsApi,
    second: UtilsApi,
    first_reply: Option<Json>,
    second_reply: Option<Json>,
)
    requires
        first@ == second@,
        first_reply.deep_view() == second_reply.deep_view(),
    ensures
        runes_url(first.version@, first.language@) == runes_url(second.version@, second.language@),
        champions_url(first.version@, first.language@) == champions_url(
            second.version@,
            second.language@,
        ),
        rune_catalog(first_reply.deep_view()) == rune_catalog(second_reply.deep_view()),
        champion_catalog(first_reply.deep_view()) == champion_catalog(second_reply.deep_view()),
{
}

/// `latest` settles on the first entry of the manifest of versions, whatever
/// else the manifest lists.
pub proof fn lemma_latest_is_first_listed(
    language: Seq<char>,
    versions: Option<JsonView>,
    languages: Option<JsonView>,
)
    ensures
        match latest_client(language, versions, languages) {
            Some(client) => {
                &&& entries_of(versions) is Some
                &&& entries_of(versions)->Some_0.len() > 0
                &&& entries_of(versions)->Some_0[0] == JsonView::Text(client.version)
                &&& client.language == language
                &&& lists(languages, language)
            },
            None => newest(versions) is None || !lists(languages, language),
        },
{
}

/// `new` makes no client for a version that the manifest of versions does
/// not list, nor for a language that the manifest of languages does not
/// list; for a version and a language that are listed it makes the client
/// of just these.
pub proof fn lemma_unlisted_is_refused(
    version: Seq<char>,
    language: Seq<char>,
    versions: Option<JsonView>,
    languages: Option<JsonView>,
)
    ensures
        !lists(versions, version) ==> chosen_client(
            version,
            language,
            versions,
            languages,
        ) is None,
        !lists(languages, language) ==> chosen_client(
            version,
            language,
            versions,
            languages,
        ) is None,
        lists(versions, version) && lists(languages, language) ==> chosen_client(
            version,
            language,
            versions,
            languages,
        ) == Some(UtilsApiView { version, language }),
{
}

} // verus!
