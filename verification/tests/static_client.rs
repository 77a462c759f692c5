use samira::json::{Json, Number};
use samira::models::champion_model::{Champion, Image, Info, LevelTip, Passive, Skin, Spell, Stats};
use samira::models::rune_model::{Rune, RuneData, RuneSlot};
use samira::request::Request;
use samira::utils_api::{
    decode_champion, decode_champions, decode_rune, decode_runes, get_latest_version, is_available,
    languages_request, versions_request, UtilsApi,
};

fn versions() -> Option<Json> {
    Json::parse("[\"12.13.1\", \"12.12.1\", \"12.11.1\", \"lolpatch_7.20\"]")
}

fn languages() -> Option<Json> {
    Json::parse("[\"en_US\", \"cs_CZ\", \"fr_FR\", \"ja_JP\"]")
}

fn anonymous(url: &str) -> Request {
    Request { url: url.to_string(), token: None }
}

fn tree_body(id: i32, name: &str) -> String {
    format!(
        "{{\"id\": {id}, \"key\": \"{name}\", \"icon\": \"perk-images/Styles/{name}.png\", \"name\": \"{name}\",
           \"slots\": [{{\"runes\": [{{\"id\": {leaf}, \"key\": \"Leaf\", \"icon\": \"leaf.png\",
           \"name\": \"Leaf of {name}\", \"shortDesc\": \"short\", \"longDesc\": \"long\"}}]}}]}}",
        id = id,
        name = name,
        leaf = id + 1
    )
}

fn tree(id: i32, name: &str) -> Rune {
    Rune {
        id,
        key: name.to_string(),
        icon: format!("perk-images/Styles/{}.png", name),
        name: name.to_string(),
        slots: vec![RuneSlot {
            runes: vec![RuneData {
                id: id + 1,
                key: "Leaf".to_string(),
                icon: "leaf.png".to_string(),
                name: format!("Leaf of {}", name),
                short_desc: "short".to_string(),
                long_desc: "long".to_string(),
            }],
        }],
    }
}

fn rune_catalog() -> Option<Json> {
    Json::parse(&format!(
        "[{}, {}, {}, {}, {}]",
        tree_body(8100, "Domination"),
        tree_body(8300, "Inspiration"),
        tree_body(8000, "Precision"),
        tree_body(8400, "Resolve"),
        tree_body(8200, "Sorcery")
    ))
}

fn image_body(full: &str) -> String {
    format!(
        "{{\"full\": \"{}\", \"sprite\": \"champion0.png\", \"group\": \"champion\",
           \"x\": 48, \"y\": 0, \"w\": 48, \"h\": 48}}",
        full
    )
}

fn image(full: &str) -> Image {
    Image {
        full: full.to_string(),
        sprite: "champion0.png".to_string(),
        group: "champion".to_string(),
        x: 48,
        y: 0,
        w: 48,
        h: 48,
    }
}

fn champion_body(id: &str, key: &str, name: &str) -> String {
    format!(
        "{{\"id\": \"{id}\", \"key\": \"{key}\", \"name\": \"{name}\", \"title\": \"the Desert Rose\",
           \"image\": {image},
           \"skins\": [{{\"id\": \"{key}000\", \"num\": 0, \"name\": \"default\", \"chromas\": false}},
                       {{\"id\": \"{key}001\", \"num\": 1, \"name\": \"PsyOps {name}\", \"chromas\": true}}],
           \"lore\": \"lore\", \"blurb\": \"blurb\",
           \"allytips\": [\"tip one\", \"tip two\"], \"enemytips\": [], \"tags\": [\"Marksman\"],
           \"partype\": \"Mana\",
           \"info\": {{\"attack\": 8, \"defense\": 5, \"magic\": 3, \"difficulty\": 6}},
           \"stats\": {{\"hp\": 600, \"hpperlevel\": 108, \"mp\": 349, \"mpperlevel\": 38,
                        \"movespeed\": 335, \"armor\": 26, \"armorperlevel\": 4.7, \"spellblock\": 30,
                        \"spellblockperlevel\": 1.3, \"attackrange\": 500, \"hpregen\": 3.25,
                        \"hpregenperlevel\": 0.55, \"mpregen\": 8.2, \"mpregenperlevel\": 0.7,
                        \"crit\": 0, \"critperlevel\": 0, \"attackdamage\": 57,
                        \"attackdamageperlevel\": 3, \"attackspeedperlevel\": 3.3,
                        \"attackspeed\": 0.658}},
           \"spells\": [{{\"id\": \"{id}Q\", \"name\": \"Flair\", \"description\": \"d\", \"tooltip\": \"t\",
                          \"leveltip\": {{\"label\": [\"Damage\"], \"effect\": [\"{{{{ e1 }}}} -> {{{{ e1NL }}}}\"]}},
                          \"maxrank\": 5, \"cooldown\": [6, 5, 4, 3, 2], \"cooldownBurn\": \"6/5/4/3/2\",
                          \"cost\": [30, 30, 30, 30, 30], \"costBurn\": \"30\",
                          \"datavalues\": {{}},
                          \"effect\": [null, [0, 5, 10, 15, 20], [0.85, 0.95, 1.05, 1.15, 1.25]],
                          \"effectBurn\": [null, \"0/5/10/15/20\", \"0.85/0.95/1.05/1.15/1.25\"],
                          \"vars\": [], \"costType\": \" Mana\", \"maxammo\": \"-1\",
                          \"range\": [950, 950, 950, 950, 950], \"rangeBurn\": \"950\",
                          \"image\": {spell_image}, \"resource\": \"cost\"}}],
           \"passive\": {{\"name\": \"Daredevil Impulse\", \"description\": \"p\", \"image\": {passive_image}}},
           \"recommended\": []}}",
        id = id,
        key = key,
        name = name,
        image = image_body(&format!("{}.png", id)),
        spell_image = image_body(&format!("{}Q.png", id)),
        passive_image = image_body(&format!("{}_P.png", id))
    )
}

fn written(digits: &str) -> Number {
    Number::Real(digits.to_string())
}

fn champion(id: &str, key: &str, name: &str) -> Champion {
    Champion {
        id: id.to_string(),
        key: key.to_string(),
        name: name.to_string(),
        title: "the Desert Rose".to_string(),
        image: image(&format!("{}.png", id)),
        skins: vec![
            Skin { id: format!("{}000", key), num: 0, name: "default".to_string(), chromas: false },
            Skin { id: format!("{}001", key), num: 1, name: format!("PsyOps {}", name), chromas: true },
        ],
        lore: "lore".to_string(),
        blurb: "blurb".to_string(),
        allytips: vec!["tip one".to_string(), "tip two".to_string()],
        enemytips: vec![],
        tags: vec!["Marksman".to_string()],
        partype: "Mana".to_string(),
        info: Info { attack: 8, defense: 5, magic: 3, difficulty: 6 },
        stats: Stats {
            hp: Number::Integer(600),
            hpperlevel: Number::Integer(108),
            mp: Number::Integer(349),
            mpperlevel: Number::Integer(38),
            movespeed: Number::Integer(335),
            armor: Number::Integer(26),
            armorperlevel: written("4.7"),
            spellblock: Number::Integer(30),
            spellblockperlevel: written("1.3"),
            attackrange: Number::Integer(500),
            hpregen: written("3.25"),
            hpregenperlevel: written("0.55"),
            mpregen: written("8.2"),
            mpregenperlevel: written("0.7"),
            crit: Number::Integer(0),
            critperlevel: Number::Integer(0),
            attackdamage: Number::Integer(57),
            attackdamageperlevel: Number::Integer(3),
            attackspeedperlevel: written("3.3"),
            attackspeed: written("0.658"),
        },
        spells: vec![Spell {
            id: format!("{}Q", id),
            name: "Flair".to_string(),
            description: "d".to_string(),
            tooltip: "t".to_string(),
            leveltip: LevelTip {
                label: vec!["Damage".to_string()],
                effect: vec!["{{ e1 }} -> {{ e1NL }}".to_string()],
            },
            maxrank: 5,
            cooldown: (2..=6).rev().map(Number::Integer).collect(),
            cooldown_burn: "6/5/4/3/2".to_string(),
            cost: vec![30, 30, 30, 30, 30].into_iter().map(Number::Integer).collect(),
            cost_burn: "30".to_string(),
            effect: vec![
                None,
                Some(vec![0, 5, 10, 15, 20].into_iter().map(Number::Integer).collect()),
                Some(vec![written("0.85"), written("0.95"), written("1.05"), written("1.15"), written("1.25")]),
            ],
            effect_burn: vec![
                None,
                Some("0/5/10/15/20".to_string()),
                Some("0.85/0.95/1.05/1.15/1.25".to_string()),
            ],
            cost_type: " Mana".to_string(),
            maxammo: "-1".to_string(),
            range: vec![950, 950, 950, 950, 950],
            range_burn: "950".to_string(),
            image: image(&format!("{}Q.png", id)),
            resource: "cost".to_string(),
        }],
        passive: Passive {
            name: "Daredevil Impulse".to_string(),
            description: "p".to_string(),
            image: image(&format!("{}_P.png", id)),
        },
    }
}

fn champion_catalog() -> Option<Json> {
    Json::parse(&format!(
        "{{\"type\": \"champion\", \"format\": \"full\", \"version\": \"12.12.1\",
           \"data\": {{\"Akali\": {}, \"MonkeyKing\": {}, \"Samira\": {}}},
           \"keys\": {{\"84\": \"Akali\", \"62\": \"MonkeyKing\", \"360\": \"Samira\"}}}}",
        champion_body("Akali", "84", "Akali"),
        champion_body("MonkeyKing", "62", "Wukong"),
        champion_body("Samira", "360", "Samira")
    ))
}

#[test]
fn manifest_requests_carry_no_token() {
    assert_eq!(versions_request(), anonymous("https://ddragon.leagueoflegends.com/api/versions.json"));
    assert_eq!(languages_request(), anonymous("https://ddragon.leagueoflegends.com/cdn/languages.json"));
}

#[test]
fn a_manifest_lists_its_texts() {
    assert!(is_available("12.12.1", &versions()));
    assert!(is_available("lolpatch_7.20", &versions()));
    assert!(!is_available("12.12", &versions()));
    assert!(!is_available("", &versions()));
    assert!(!is_available("en_US", &versions()));
    assert!(is_available("fr_FR", &languages()));
    assert!(!is_available("fr_fr", &languages()));
}

#[test]
fn what_is_no_manifest_lists_nothing() {
    assert!(!is_available("12.12.1", &None));
    assert!(!is_available("12.12.1", &Json::parse("{\"12.12.1\": true}")));
    assert!(!is_available("12.12.1", &Json::parse("\"12.12.1\"")));
    assert!(!is_available("12", &Json::parse("[12, null, [\"12\"]]")));
    assert!(!is_available("12.12.1", &Json::parse("[]")));
}

#[test]
fn the_newest_version_is_the_first_entry() {
    assert_eq!(get_latest_version(&versions()), Some("12.13.1".to_string()));
    assert_eq!(get_latest_version(&Json::parse("[\"1.0\"]")), Some("1.0".to_string()));
    assert_eq!(get_latest_version(&Json::parse("[]")), None);
    assert_eq!(get_latest_version(&Json::parse("[12, \"12.13.1\"]")), None);
    assert_eq!(get_latest_version(&Json::parse("{}")), None);
    assert_eq!(get_latest_version(&None), None);
}

#[test]
fn latest_takes_the_first_listed_version() {
    assert_eq!(
        UtilsApi::latest("en_US", &versions(), &languages()),
        Some(UtilsApi { version: "12.13.1".to_string(), language: "en_US".to_string() })
    );
    assert_eq!(
        UtilsApi::latest("ja_JP", &Json::parse("[\"9.1.1\", \"12.13.1\"]"), &languages()),
        Some(UtilsApi { version: "9.1.1".to_string(), language: "ja_JP".to_string() })
    );
}

#[test]
fn latest_fails_without_a_version_or_a_listed_language() {
    assert_eq!(UtilsApi::latest("xx_XX", &versions(), &languages()), None);
    assert_eq!(UtilsApi::latest("en_US", &None, &languages()), None);
    assert_eq!(UtilsApi::latest("en_US", &versions(), &None), None);
    assert_eq!(UtilsApi::latest("en_US", &Json::parse("[]"), &languages()), None);
    assert_eq!(UtilsApi::latest("en_US", &None, &None), None);
}

#[test]
fn new_takes_a_listed_version_and_language() {
    assert_eq!(
        UtilsApi::new("12.12.1", "fr_FR", &versions(), &languages()),
        Some(UtilsApi { version: "12.12.1".to_string(), language: "fr_FR".to_string() })
    );
}

#[test]
fn new_fails_on_what_the_manifests_do_not_list() {
    assert_eq!(UtilsApi::new("0.0.0", "fr_FR", &versions(), &languages()), None);
    assert_eq!(UtilsApi::new("12.12.1", "tlh", &versions(), &languages()), None);
    assert_eq!(UtilsApi::new("0.0.0", "tlh", &versions(), &languages()), None);
    assert_eq!(UtilsApi::new("12.12.1", "fr_FR", &None, &languages()), None);
    assert_eq!(UtilsApi::new("12.12.1", "fr_FR", &versions(), &None), None);
    assert_eq!(UtilsApi::new("fr_FR", "12.12.1", &versions(), &languages()), None);
}

#[test]
fn the_default_client_is_for_12_12_1_in_english() {
    assert_eq!(
        UtilsApi::default(),
        UtilsApi { version: "12.12.1".to_string(), language: "en_US".to_string() }
    );
    assert_eq!(UtilsApi::latest("en_US", &None, &None).unwrap_or_default(), UtilsApi::default());
}

#[test]
fn catalog_requests_name_version_and_language() {
    let api = UtilsApi { version: "12.12.1".to_string(), language: "fr_FR".to_string() };
    assert_eq!(
        api.champions_request(),
        anonymous("https://ddragon.leagueoflegends.com/cdn/12.12.1/data/fr_FR/championFull.json")
    );
    assert_eq!(
        api.runes_request(),
        anonymous("https://ddragon.leagueoflegends.com/cdn/12.12.1/data/fr_FR/runesReforged.json")
    );
}

#[test]
fn all_runes_come_in_the_order_of_the_catalog() {
    let api = UtilsApi::default();
    let runes = api.get_all_runes(&rune_catalog());
    assert_eq!(
        runes,
        vec![
            tree(8100, "Domination"),
            tree(8300, "Inspiration"),
            tree(8000, "Precision"),
            tree(8400, "Resolve"),
            tree(8200, "Sorcery"),
        ]
    );
    assert!(runes.iter().any(|rune| rune.name == "Domination"));
    assert!(runes.iter().any(|rune| rune.name == "Inspiration"));
    assert!(runes.iter().any(|rune| rune.id == 8400));
    assert!(!runes.iter().any(|rune| rune.name == "RqndomRune"));
}

#[test]
fn one_bad_entry_fails_the_whole_catalog_of_runes() {
    let api = UtilsApi::default();
    let body = format!(
        "[{}, {{\"id\": 8300, \"key\": \"Inspiration\", \"name\": \"Inspiration\"}}, {}]",
        tree_body(8100, "Domination"),
        tree_body(8000, "Precision")
    );
    assert_eq!(decode_runes(&Json::parse(&body)), None);
    assert_eq!(api.get_all_runes(&Json::parse(&body)), vec![]);
}

#[test]
fn no_catalog_of_runes_gives_no_runes() {
    let api = UtilsApi::default();
    assert_eq!(decode_runes(&None), None);
    assert_eq!(api.get_all_runes(&None), vec![]);
    assert_eq!(api.get_all_runes(&Json::parse("{\"data\": []}")), vec![]);
    assert_eq!(decode_runes(&Json::parse("[]")), Some(vec![]));
    assert_eq!(api.get_all_runes(&Json::parse("[]")), vec![]);
}

#[test]
fn a_rune_is_found_by_its_name() {
    let api = UtilsApi::default();
    assert_eq!(api.get_rune("Domination".to_owned(), &rune_catalog()).unwrap().name, "Domination");
    assert_eq!(api.get_rune("Inspiration".to_owned(), &rune_catalog()).unwrap().name, "Inspiration");
    assert_eq!(api.get_rune("Sorcery".to_owned(), &rune_catalog()), Some(tree(8200, "Sorcery")));
    assert_eq!(decode_rune(&rune_catalog(), "Resolve"), Some(tree(8400, "Resolve")));
}

#[test]
fn a_rune_that_is_not_listed_is_not_found() {
    let api = UtilsApi::default();
    assert_eq!(api.get_rune("RqndomRune".to_owned(), &rune_catalog()), None);
    assert_eq!(api.get_rune("domination".to_owned(), &rune_catalog()), None);
    assert_eq!(api.get_rune("".to_owned(), &rune_catalog()), None);
    assert_eq!(api.get_rune("Domination".to_owned(), &None), None);
    assert_eq!(api.get_rune("Domination".to_owned(), &Json::parse("[]")), None);
    assert_eq!(api.get_rune("Domination".to_owned(), &Json::parse("{}")), None);
}

#[test]
fn of_two_runes_of_one_name_the_first_is_found() {
    let body = format!(
        "[{}, {}, {}]",
        tree_body(1, "Precision"),
        tree_body(2, "Domination"),
        tree_body(3, "Precision")
    );
    assert_eq!(decode_rune(&Json::parse(&body), "Precision"), Some(tree(1, "Precision")));
    assert_eq!(decode_rune(&Json::parse(&body), "Domination"), Some(tree(2, "Domination")));
}

#[test]
fn a_rune_is_read_only_where_it_is_found() {
    let body = format!(
        "[{{\"name\": \"Stub\"}}, {}, {{\"name\": \"Other\", \"id\": \"x\"}}]",
        tree_body(8000, "Precision")
    );
    assert_eq!(decode_rune(&Json::parse(&body), "Precision"), Some(tree(8000, "Precision")));
    assert_eq!(decode_rune(&Json::parse(&body), "Stub"), None);
    assert_eq!(decode_runes(&Json::parse(&body)), None);
}

#[test]
fn an_entry_without_a_name_fails_the_search() {
    let nameless_after = format!("[{}, {{\"id\": 1}}]", tree_body(8000, "Precision"));
    assert_eq!(decode_rune(&Json::parse(&nameless_after), "Precision"), None);
    let nameless_before = format!("[{{\"name\": 7}}, {}]", tree_body(8000, "Precision"));
    assert_eq!(decode_rune(&Json::parse(&nameless_before), "Precision"), None);
    let no_object = format!("[{}, \"Precision\"]", tree_body(8000, "Precision"));
    assert_eq!(decode_rune(&Json::parse(&no_object), "Precision"), None);
}

#[test]
fn rune_lookup_agrees_with_the_catalog() {
    let api = UtilsApi::default();
    let catalog = api.get_all_runes(&rune_catalog());
    assert_eq!(catalog.len(), 5);
    for (place, entry) in catalog.iter().enumerate() {
        let found = api.get_rune(entry.name.clone(), &rune_catalog()).unwrap();
        assert_eq!(&found, entry);
        assert_eq!(catalog.iter().position(|rune| rune.name == entry.name), Some(place));
    }
    assert_eq!(api.get_rune("Absent".to_owned(), &rune_catalog()), None);
}

#[test]
fn fetching_a_catalog_twice_gives_the_same() {
    let api = UtilsApi::new("12.12.1", "en_US", &versions(), &languages()).unwrap();
    let again = UtilsApi::new("12.12.1", "en_US", &versions(), &languages()).unwrap();
    assert_eq!(api.runes_request(), again.runes_request());
    assert_eq!(api.champions_request(), again.champions_request());
    assert_eq!(api.get_all_runes(&rune_catalog()), again.get_all_runes(&rune_catalog()));
    assert_eq!(api.get_all_champions(&champion_catalog()), api.get_all_champions(&champion_catalog()));
}

#[test]
fn all_champions_come_in_the_order_of_the_catalog() {
    let api = UtilsApi::default();
    let champions = api.get_all_champions(&champion_catalog());
    assert_eq!(
        champions,
        vec![
            champion("Akali", "84", "Akali"),
            champion("MonkeyKing", "62", "Wukong"),
            champion("Samira", "360", "Samira"),
        ]
    );
    assert!(champions.iter().any(|c| c.name == "Samira"));
    assert!(champions.iter().any(|c| c.name == "Akali"));
    assert!(!champions.iter().any(|c| c.name == "RqndomChampion"));
}

#[test]
fn one_bad_entry_fails_the_whole_catalog_of_champions() {
    let api = UtilsApi::default();
    let body = format!(
        "{{\"data\": {{\"Akali\": {}, \"Broken\": {{\"id\": \"Broken\", \"name\": \"Broken\"}}}}}}",
        champion_body("Akali", "84", "Akali")
    );
    assert_eq!(decode_champions(&Json::parse(&body)), None);
    assert_eq!(api.get_all_champions(&Json::parse(&body)), vec![]);
    assert_eq!(decode_champion(&Json::parse(&body), "Akali"), Some(champion("Akali", "84", "Akali")));
    assert_eq!(decode_champion(&Json::parse(&body), "Broken"), None);
}

#[test]
fn no_catalog_of_champions_gives_no_champions() {
    let api = UtilsApi::default();
    assert_eq!(api.get_all_champions(&None), vec![]);
    assert_eq!(decode_champions(&None), None);
    assert_eq!(decode_champions(&Json::parse("{}")), None);
    assert_eq!(decode_champions(&Json::parse("{\"data\": []}")), None);
    assert_eq!(decode_champions(&Json::parse("[]")), None);
    assert_eq!(decode_champions(&Json::parse("{\"data\": {}}")), Some(vec![]));
}

#[test]
fn a_champion_is_found_under_its_entry() {
    let api = UtilsApi::default();
    assert_eq!(api.get_champion("Samira".to_owned(), &champion_catalog()).unwrap().name, "Samira");
    assert_eq!(
        api.get_champion("MonkeyKing".to_owned(), &champion_catalog()),
        Some(champion("MonkeyKing", "62", "Wukong"))
    );
}

#[test]
fn a_champion_that_is_not_listed_is_not_found() {
    let api = UtilsApi::default();
    assert_eq!(api.get_champion("RqndomChampion".to_owned(), &champion_catalog()), None);
    assert_eq!(api.get_champion("samira".to_owned(), &champion_catalog()), None);
    assert_eq!(api.get_champion("Samira".to_owned(), &None), None);
    assert_eq!(api.get_champion("Samira".to_owned(), &Json::parse("{\"data\": null}")), None);
    assert_eq!(api.get_champion("data".to_owned(), &champion_catalog()), None);
}

#[test]
fn champion_lookup_agrees_with_the_catalog() {
    let api = UtilsApi::default();
    let catalog = api.get_all_champions(&champion_catalog());
    assert_eq!(catalog.len(), 3);
    for entry in catalog.iter() {
        assert_eq!(api.get_champion(entry.id.clone(), &champion_catalog()).as_ref(), Some(entry));
    }
}

#[test]
fn a_champion_figure_of_the_wrong_kind_is_no_champion() {
    let body = format!("{{\"data\": {{\"Akali\": {}}}}}", champion_body("Akali", "84", "Akali"))
        .replace("\"attackspeed\": 0.658", "\"attackspeed\": \"0.658\"");
    assert_eq!(decode_champion(&Json::parse(&body), "Akali"), None);
    let body = format!("{{\"data\": {{\"Akali\": {}}}}}", champion_body("Akali", "84", "Akali"))
        .replace("\"chromas\": true", "\"chromas\": 1");
    assert_eq!(decode_champion(&Json::parse(&body), "Akali"), None);
}
