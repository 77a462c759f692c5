use crate::decode::{Decode, decode_field, decode_member, parse_field, parse_member};
use crate::json::{Json, JsonView, Number, NumberView};
use vstd::prelude::*;

verus! {

/// A champion's passive ability.
#[derive(Debug, Default, PartialEq)]
pub struct Passive {
    pub name: String,
    pub description: String,
    pub image: Image,
}

/// What a `Passive` holds.
pub ghost struct PassiveView {
    pub name: Seq<char>,
    pub description: Seq<char>,
    pub image: ImageView,
}

impl View for Passive {
    type V = PassiveView;

    open spec fn view(&self) -> PassiveView {
        PassiveView {
            name: self.name@,
            description: self.description@,
            image: self.image@,
        }
    }
}

impl DeepView for Passive {
    type V = PassiveView;

    open spec fn deep_view(&self) -> PassiveView {
        self.view()
    }
}

impl Decode for Passive {
    /// An object is read as a record if it has a member for every field,
    /// each of the kind of its field. Members that name no field are passed
    /// over; anything else is no record.
    open spec fn parse(json: JsonView) -> Option<PassiveView> {
        let name = parse_member::<String>(json, "name"@);
        let description = parse_member::<String>(json, "description"@);
        let image = parse_member::<Image>(json, "image"@);
        if name is Some && description is Some && image is Some {
            Some(
                PassiveView {
                    name: name->Some_0,
                    description: description->Some_0,
                    image: image->Some_0,
                },
            )
        } else {
            None
        }
    }

    fn from_json(json: &Json) -> (value: Option<Passive>) {
        let name = decode_member::<String>(json, "name")?;
        let description = decode_member::<String>(json, "description")?;
        let image = decode_member::<Image>(json, "image")?;
        Some(Passive { name, description, image })
    }
}

/// What changes as a spell gains a rank.
#[derive(Debug, Default, PartialEq)]
pub struct LevelTip {
    pub label: Vec<String>,
    pub effect: Vec<String>,
}

/// What a `LevelTip` holds.
pub ghost struct LevelTipView {
    pub label: Seq<Seq<char>>,
    pub effect: Seq<Seq<char>>,
}

impl View for LevelTip {
    type V = LevelTipView;

    open spec fn view(&self) -> LevelTipView {
        LevelTipView {
            label: self.label.deep_view(),
            effect: self.effect.deep_view(),
        }
    }
}

impl DeepView for LevelTip {
    type V = LevelTipView;

    open spec fn deep_view(&self) -> LevelTipView {
        self.view()
    }
}

impl Decode for LevelTip {
    /// An object is read as a record if it has a member for every field,
    /// each of the kind of its field. Members that name no field are passed
    /// over; anything else is no record.
    open spec fn parse(json: JsonView) -> Option<LevelTipView> {
        let label = parse_member::<Vec<String>>(json, "label"@);
        let effect = parse_member::<Vec<String>>(json, "effect"@);
        if label is Some && effect is Some {
            Some(
                LevelTipView {
                    label: label->Some_0,
                    effect: effect->Some_0,
                },
            )
        } else {
            None
        }
    }

    fn from_json(json: &Json) -> (value: Option<LevelTip>) {
        let label = decode_member::<Vec<String>>(json, "label")?;
        let effect = decode_member::<Vec<String>>(json, "effect")?;
        Some(LevelTip { label, effect })
    }
}

/// One of a champion's abilities. Its figures are numbers as the catalog
/// writes them.
#[derive(Debug, Default, PartialEq)]
pub struct Spell {
    pub id: String,
    pub name: String,
    pub description: String,
    pub tooltip: String,
    pub leveltip: LevelTip,
    pub maxrank: i32,
    pub cooldown: Vec<Number>,
    pub cooldown_burn: String,
    pub cost: Vec<Number>,
    pub cost_burn: String,
    pub effect: Vec<Option<Vec<Number>>>,
    pub effect_burn: Vec<Option<String>>,
    pub cost_type: String,
    pub maxammo: String,
    pub range: Vec<i64>,
    pub range_burn: String,
    pub image: Image,
    pub resource: String,
}

/// What a `Spell` holds.
pub ghost struct SpellView {
    pub id: Seq<char>,
    pub name: Seq<char>,
    pub description: Seq<char>,
    pub tooltip: Seq<char>,
    pub leveltip: LevelTipView,
    pub maxrank: i32,
    pub cooldown: Seq<NumberView>,
    pub cooldown_burn: Seq<char>,
    pub cost: Seq<NumberView>,
    pub cost_burn: Seq<char>,
    pub effect: Seq<Option<Seq<NumberView>>>,
    pub effect_burn: Seq<Option<Seq<char>>>,
    pub cost_type: Seq<char>,
    pub maxammo: Seq<char>,
    pub range: Seq<i64>,
    pub range_burn: Seq<char>,
    pub image: ImageView,
    pub resource: Seq<char>,
}

impl View for Spell {
    type V = SpellView;

    open spec fn view(&self) -> SpellView {
        SpellView {
            id: self.id@,
            name: self.name@,
            description: self.description@,
            tooltip: self.tooltip@,
            leveltip: self.leveltip@,
            maxrank: self.maxrank,
            cooldown: self.cooldown.deep_view(),
            cooldown_burn: self.cooldown_burn@,
            cost: self.cost.deep_view(),
            cost_burn: self.cost_burn@,
            effect: self.effect.deep_view(),
            effect_burn: self.effect_burn.deep_view(),
            cost_type: self.cost_type@,
            maxammo: self.maxammo@,
            range: self.range.deep_view(),
            range_burn: self.range_burn@,
            image: self.image@,
            resource: self.resource@,
        }
    }
}

impl DeepView for Spell {
    type V = SpellView;

    open spec fn deep_view(&self) -> SpellView {
        self.view()
    }
}

impl Decode for Spell {
    /// An object is read as a record if it has a member for every field,
    /// each of the kind of its field. Members that name no field are passed
    /// over; anything else is no record.
    open spec fn parse(json: JsonView) -> Option<SpellView> {
        let id = parse_member::<String>(json, "id"@);
        let name = parse_member::<String>(json, "name"@);
        let description = parse_member::<String>(json, "description"@);
        let tooltip = parse_member::<String>(json, "tooltip"@);
        let leveltip = parse_member::<LevelTip>(json, "leveltip"@);
        let maxrank = parse_member::<i32>(json, "maxrank"@);
        let cooldown = parse_member::<Vec<Number>>(json, "cooldown"@);
        let cooldown_burn = parse_field::<String>(json, "cooldown_burn"@, "cooldownBurn"@);
        let cost = parse_member::<Vec<Number>>(json, "cost"@);
        let cost_burn = parse_field::<String>(json, "cost_burn"@, "costBurn"@);
        let effect = parse_member::<Vec<Option<Vec<Number>>>>(json, "effect"@);
        let effect_burn = parse_field::<Vec<Option<String>>>(json, "effect_burn"@, "effectBurn"@);
        let cost_type = parse_field::<String>(json, "cost_type"@, "costType"@);
        let maxammo = parse_member::<String>(json, "maxammo"@);
        let range = parse_member::<Vec<i64>>(json, "range"@);
        let range_burn = parse_field::<String>(json, "range_burn"@, "rangeBurn"@);
        let image = parse_member::<Image>(json, "image"@);
        let resource = parse_member::<String>(json, "resource"@);
        if id is Some && name is Some && description is Some && tooltip is Some
            && leveltip is Some && maxrank is Some && cooldown is Some && cooldown_burn is Some
            && cost is Some && cost_burn is Some && effect is Some && effect_burn is Some
            && cost_type is Some && maxammo is Some && range is Some && range_burn is Some
            && image is Some && resource is Some {
            Some(
                SpellView {
                    id: id->Some_0,
                    name: name->Some_0,
                    description: description->Some_0,
                    tooltip: tooltip->Some_0,
                    leveltip: leveltip->Some_0,
                    maxrank: maxrank->Some_0,
                    cooldown: cooldown->Some_0,
                    cooldown_burn: cooldown_burn->Some_0,
                    cost: cost->Some_0,
                    cost_burn: cost_burn->Some_0,
                    effect: effect->Some_0,
                    effect_burn: effect_burn->Some_0,
                    cost_type: cost_type->Some_0,
                    maxammo: maxammo->Some_0,
                    range: range->Some_0,
                    range_burn: range_burn->Some_0,
                    image: image->Some_0,
                    resource: resource->Some_0,
                },
            )
        } else {
            None
        }
    }

    fn from_json(json: &Json) -> (value: Option<Spell>) {
        let id = decode_member::<String>(json, "id")?;
        let name = decode_member::<String>(json, "name")?;
        let description = decode_member::<String>(json, "description")?;
        let tooltip = decode_member::<String>(json, "tooltip")?;
        let leveltip = decode_member::<LevelTip>(json, "leveltip")?;
        let maxrank = decode_member::<i32>(json, "maxrank")?;
        let cooldown = decode_member::<Vec<Number>>(json, "cooldown")?;
        let cooldown_burn = decode_field::<String>(json, "cooldown_burn", "cooldownBurn")?;
        let cost = decode_member::<Vec<Number>>(json, "cost")?;
        let cost_burn = decode_field::<String>(json, "cost_burn", "costBurn")?;
        let effect = decode_member::<Vec<Option<Vec<Number>>>>(json, "effect")?;
        let effect_burn = decode_field::<Vec<Option<String>>>(json, "effect_burn", "effectBurn")?;
        let cost_type = decode_field::<String>(json, "cost_type", "costType")?;
        let maxammo = decode_member::<String>(json, "maxammo")?;
        let range = decode_member::<Vec<i64>>(json, "range")?;
        let range_burn = decode_field::<String>(json, "range_burn", "rangeBurn")?;
        let image = decode_member::<Image>(json, "image")?;
        let resource = decode_member::<String>(json, "resource")?;
        Some(
            Spell {
                id,
                name,
                description,
                tooltip,
                leveltip,
                maxrank,
                cooldown,
                cooldown_burn,
                cost,
                cost_burn,
                effect,
                effect_burn,
                cost_type,
                maxammo,
                range,
                range_burn,
                image,
                resource,
            },
        )
    }
}

/// A champion's figures at level one and their growth by level, as the
/// catalog writes them.
#[derive(Debug, Default, PartialEq)]
pub struct Stats {
    pub hp: Number,
    pub hpperlevel: Number,
    pub mp: Number,
    pub mpperlevel: Number,
    pub movespeed: Number,
    pub armor: Number,
    pub armorperlevel: Number,
    pub spellblock: Number,
    pub spellblockperlevel: Number,
    pub attackrange: Number,
    pub hpregen: Number,
    pub hpregenperlevel: Number,
    pub mpregen: Number,
    pub mpregenperlevel: Number,
    pub crit: Number,
    pub critperlevel: Number,
    pub attackdamage: Number,
    pub attackdamageperlevel: Number,
    pub attackspeedperlevel: Number,
    pub attackspeed: Number,
}

/// What a `Stats` holds.
pub ghost struct StatsView {
    pub hp: NumberView,
    pub hpperlevel: NumberView,
    pub mp: NumberView,
    pub mpperlevel: NumberView,
    pub movespeed: NumberView,
    pub armor: NumberView,
    pub armorperlevel: NumberView,
    pub spellblock: NumberView,
    pub spellblockperlevel: NumberView,
    pub attackrange: NumberView,
    pub hpregen: NumberView,
    pub hpregenperlevel: NumberView,
    pub mpregen: NumberView,
    pub mpregenperlevel: NumberView,
    pub crit: NumberView,
    pub critperlevel: NumberView,
    pub attackdamage: NumberView,
    pub attackdamageperlevel: NumberView,
    pub attackspeedperlevel: NumberView,
    pub attackspeed: NumberView,
}

impl View for Stats {
    type V = StatsView;

    open spec fn view(&self) -> StatsView {
        StatsView {
            hp: self.hp@,
            hpperlevel: self.hpperlevel@,
            mp: self.mp@,
            mpperlevel: self.mpperlevel@,
            movespeed: self.movespeed@,
            armor: self.armor@,
            armorperlevel: self.armorperlevel@,
            spellblock: self.spellblock@,
            spellblockperlevel: self.spellblockperlevel@,
            attackrange: self.attackrange@,
            hpregen: self.hpregen@,
            hpregenperlevel: self.hpregenperlevel@,
            mpregen: self.mpregen@,
            mpregenperlevel: self.mpregenperlevel@,
            crit: self.crit@,
            critperlevel: self.critperlevel@,
            attackdamage: self.attackdamage@,
            attackdamageperlevel: self.attackdamageperlevel@,
            attackspeedperlevel: self.attackspeedperlevel@,
            attackspeed: self.attackspeed@,
        }
    }
}

impl DeepView for Stats {
    type V = StatsView;

    open spec fn deep_view(&self) -> StatsView {
        self.view()
    }
}

impl Decode for Stats {
    /// An object is read as a record if it has a member for every field,
    /// each of the kind of its field. Members that name no field are passed
    /// over; anything else is no record.
    open spec fn parse(json: JsonView) -> Option<StatsView> {
        let hp = parse_member::<Number>(json, "hp"@);
        let hpperlevel = parse_member::<Number>(json, "hpperlevel"@);
        let mp = parse_member::<Number>(json, "mp"@);
        let mpperlevel = parse_member::<Number>(json, "mpperlevel"@);
        let movespeed = parse_member::<Number>(json, "movespeed"@);
        let armor = parse_member::<Number>(json, "armor"@);
        let armorperlevel = parse_member::<Number>(json, "armorperlevel"@);
        let spellblock = parse_member::<Number>(json, "spellblock"@);
        let spellblockperlevel = parse_member::<Number>(json, "spellblockperlevel"@);
        let attackrange = parse_member::<Number>(json, "attackrange"@);
        let hpregen = parse_member::<Number>(json, "hpregen"@);
        let hpregenperlevel = parse_member::<Number>(json, "hpregenperlevel"@);
        let mpregen = parse_member::<Number>(json, "mpregen"@);
        let mpregenperlevel = parse_member::<Number>(json, "mpregenperlevel"@);
        let crit = parse_member::<Number>(json, "crit"@);
        let critperlevel = parse_member::<Number>(json, "critperlevel"@);
        let attackdamage = parse_member::<Number>(json, "attackdamage"@);
        let attackdamageperlevel = parse_member::<Number>(json, "attackdamageperlevel"@);
        let attackspeedperlevel = parse_member::<Number>(json, "attackspeedperlevel"@);
        let attackspeed = parse_member::<Number>(json, "attackspeed"@);
        if hp is Some && hpperlevel is Some && mp is Some && mpperlevel is Some
            && movespeed is Some && armor is Some && armorperlevel is Some && spellblock is Some
            && spellblockperlevel is Some && attackrange is Some && hpregen is Some
            && hpregenperlevel is Some && mpregen is Some && mpregenperlevel is Some
            && crit is Some && critperlevel is Some && attackdamage is Some
            && attackdamageperlevel is Some && attackspeedperlevel is Some
            && attackspeed is Some {
            Some(
                StatsView {
                    hp: hp->Some_0,
                    hpperlevel: hpperlevel->Some_0,
                    mp: mp->Some_0,
                    mpperlevel: mpperlevel->Some_0,
                    movespeed: movespeed->Some_0,
                    armor: armor->Some_0,
                    armorperlevel: armorperlevel->Some_0,
                    spellblock: spellblock->Some_0,
                    spellblockperlevel: spellblockperlevel->Some_0,
                    attackrange: attackrange->Some_0,
                    hpregen: hpregen->Some_0,
                    hpregenperlevel: hpregenperlevel->Some_0,
                    mpregen: mpregen->Some_0,
                    mpregenperlevel: mpregenperlevel->Some_0,
                    crit: crit->Some_0,
                    critperlevel: critperlevel->Some_0,
                    attackdamage: attackdamage->Some_0,
                    attackdamageperlevel: attackdamageperlevel->Some_0,
                    attackspeedperlevel: attackspeedperlevel->Some_0,
                    attackspeed: attackspeed->Some_0,
                },
            )
        } else {
            None
        }
    }

    fn from_json(json: &Json) -> (value: Option<Stats>) {
        let hp = decode_member::<Number>(json, "hp")?;
        let hpperlevel = decode_member::<Number>(json, "hpperlevel")?;
        let mp = decode_member::<Number>(json, "mp")?;
        let mpperlevel = decode_member::<Number>(json, "mpperlevel")?;
        let movespeed = decode_member::<Number>(json, "movespeed")?;
        let armor = decode_member::<Number>(json, "armor")?;
        let armorperlevel = decode_member::<Number>(json, "armorperlevel")?;
        let spellblock = decode_member::<Number>(json, "spellblock")?;
        let spellblockperlevel = decode_member::<Number>(json, "spellblockperlevel")?;
        let attackrange = decode_member::<Number>(json, "attackrange")?;
        let hpregen = decode_member::<Number>(json, "hpregen")?;
        let hpregenperlevel = decode_member::<Number>(json, "hpregenperlevel")?;
        let mpregen = decode_member::<Number>(json, "mpregen")?;
        let mpregenperlevel = decode_member::<Number>(json, "mpregenperlevel")?;
        let crit = decode_member::<Number>(json, "crit")?;
        let critperlevel = decode_member::<Number>(json, "critperlevel")?;
        let attackdamage = decode_member::<Number>(json, "attackdamage")?;
        let attackdamageperlevel = decode_member::<Number>(json, "attackdamageperlevel")?;
        let attackspeedperlevel = decode_member::<Number>(json, "attackspeedperlevel")?;
        let attackspeed = decode_member::<Number>(json, "attackspeed")?;
        Some(
            Stats {
                hp,
                hpperlevel,
                mp,
                mpperlevel,
                movespeed,
                armor,
                armorperlevel,
                spellblock,
                spellblockperlevel,
                attackrange,
                hpregen,
                hpregenperlevel,
                mpregen,
                mpregenperlevel,
                crit,
                critperlevel,
                attackdamage,
                attackdamageperlevel,
                attackspeedperlevel,
                attackspeed,
            },
        )
    }
}

/// A champion's ratings.
#[derive(Debug, Default, PartialEq)]
pub struct Info {
    pub attack: i32,
    pub defense: i32,
    pub magic: i32,
    pub difficulty: i32,
}

/// What an `Info` holds.
pub ghost struct InfoView {
    pub attack: i32,
    pub defense: i32,
    pub magic: i32,
    pub difficulty: i32,
}

impl View for Info {
    type V = InfoView;

    open spec fn view(&self) -> InfoView {
        InfoView {
            attack: self.attack,
            defense: self.defense,
            magic: self.magic,
            difficulty: self.difficulty,
        }
    }
}

impl DeepView for Info {
    type V = InfoView;

    open spec fn deep_view(&self) -> InfoView {
        self.view()
    }
}

impl Decode for Info {
    /// An object is read as a record if it has a member for every field,
    /// each of the kind of its field. Members that name no field are passed
    /// over; anything else is no record.
    open spec fn parse(json: JsonView) -> Option<InfoView> {
        let attack = parse_member::<i32>(json, "attack"@);
        let defense = parse_member::<i32>(json, "defense"@);
        let magic = parse_member::<i32>(json, "magic"@);
        let difficulty = parse_member::<i32>(json, "difficulty"@);
        if attack is Some && defense is Some && magic is Some && difficulty is Some {
            Some(
                InfoView {
                    attack: attack->Some_0,
                    defense: defense->Some_0,
                    magic: magic->Some_0,
                    difficulty: difficulty->Some_0,
                },
            )
        } else {
            None
        }
    }

    fn from_json(json: &Json) -> (value: Option<Info>) {
        let attack = decode_member::<i32>(json, "attack")?;
        let defense = decode_member::<i32>(json, "defense")?;
        let magic = decode_member::<i32>(json, "magic")?;
        let difficulty = decode_member::<i32>(json, "difficulty")?;
        Some(Info { attack, defense, magic, difficulty })
    }
}

/// One of a champion's looks.
#[derive(Debug, Default, PartialEq)]
pub struct Skin {
    pub id: String,
    pub num: i32,
    pub name: String,
    pub chromas: bool,
}

/// What a `Skin` holds.
pub ghost struct SkinView {
    pub id: Seq<char>,
    pub num: i32,
    pub name: Seq<char>,
    pub chromas: bool,
}

impl View for Skin {
    type V = SkinView;

    open spec fn view(&self) -> SkinView {
        SkinView {
            id: self.id@,
            num: self.num,
            name: self.name@,
            chromas: self.chromas,
        }
    }
}

impl DeepView for Skin {
    type V = SkinView;

    open spec fn deep_view(&self) -> SkinView {
        self.view()
    }
}

impl Decode for Skin {
    /// An object is read as a record if it has a member for every field,
    /// each of the kind of its field. Members that name no field are passed
    /// over; anything else is no record.
    open spec fn parse(json: JsonView) -> Option<SkinView> {
        let id = parse_member::<String>(json, "id"@);
        let num = parse_member::<i32>(json, "num"@);
        let name = parse_member::<String>(json, "name"@);
        let chromas = parse_member::<bool>(json, "chromas"@);
        if id is Some && num is Some && name is Some && chromas is Some {
            Some(
                SkinView {
                    id: id->Some_0,
                    num: num->Some_0,
                    name: name->Some_0,
                    chromas: chromas->Some_0,
                },
            )
        } else {
            None
        }
    }

    fn from_json(json: &Json) -> (value: Option<Skin>) {
        let id = decode_member::<String>(json, "id")?;
        let num = decode_member::<i32>(json, "num")?;
        let name = decode_member::<String>(json, "name")?;
        let chromas = decode_member::<bool>(json, "chromas")?;
        Some(Skin { id, num, name, chromas })
    }
}

/// Where a picture lies on its sheet.
#[derive(Debug, Default, PartialEq)]
pub struct Image {
    pub full: String,
    pub sprite: String,
    pub group: String,
    pub x: i32,
    pub y: i32,
    pub w: i32,
    pub h: i32,
}

/// What an `Image` holds.
pub ghost struct ImageView {
    pub full: Seq<char>,
    pub sprite: Seq<char>,
    pub group: Seq<char>,
    pub x: i32,
    pub y: i32,
    pub w: i32,
    pub h: i32,
}

impl View for Image {
    type V = ImageView;

    open spec fn view(&self) -> ImageView {
        ImageView {
            full: self.full@,
            sprite: self.sprite@,
            group: self.group@,
            x: self.x,
            y: self.y,
            w: self.w,
            h: self.h,
        }
    }
}

impl DeepView for Image {
    type V = ImageView;

    open spec fn deep_view(&self) -> ImageView {
        self.view()
    }
}

impl Decode for Image {
    /// An object is read as a record if it has a member for every field,
    /// each of the kind of its field. Members that name no field are passed
    /// over; anything else is no record.
    open spec fn parse(json: JsonView) -> Option<ImageView> {
        let full = parse_member::<String>(json, "full"@);
        let sprite = parse_member::<String>(json, "sprite"@);
        let group = parse_member::<String>(json, "group"@);
        let x = parse_member::<i32>(json, "x"@);
        let y = parse_member::<i32>(json, "y"@);
        let w = parse_member::<i32>(json, "w"@);
        let h = parse_member::<i32>(json, "h"@);
        if full is Some && sprite is Some && group is Some && x is Some && y is Some
            && w is Some && h is Some {
            Some(
                ImageView {
                    full: full->Some_0,
                    sprite: sprite->Some_0,
                    group: group->Some_0,
                    x: x->Some_0,
                    y: y->Some_0,
                    w: w->Some_0,
                    h: h->Some_0,
                },
            )
        } else {
            None
        }
    }

    fn from_json(json: &Json) -> (value: Option<Image>) {
        let full = decode_member::<String>(json, "full")?;
        let sprite = decode_member::<String>(json, "sprite")?;
        let group = decode_member::<String>(json, "group")?;
        let x = decode_member::<i32>(json, "x")?;
        let y = decode_member::<i32>(json, "y")?;
        let w = decode_member::<i32>(json, "w")?;
        let h = decode_member::<i32>(json, "h")?;
        Some(Image { full, sprite, group, x, y, w, h })
    }
}

/// A playable character.
#[derive(Debug, Default, PartialEq)]
pub struct Champion {
    pub id: String,
    pub key: String,
    pub name: String,
    pub title: String,
    pub image: Image,
    pub skins: Vec<Skin>,
    pub lore: String,
    pub blurb: String,
    pub allytips: Vec<String>,
    pub enemytips: Vec<String>,
    pub tags: Vec<String>,
    pub partype: String,
    pub info: Info,
    pub stats: Stats,
    pub spells: Vec<Spell>,
    pub passive: Passive,
}

/// What a `Champion` holds.
pub ghost struct ChampionView {
    pub id: Seq<char>,
    pub key: Seq<char>,
    pub name: Seq<char>,
    pub title: Seq<char>,
    pub image: ImageView,
    pub skins: Seq<SkinView>,
    pub lore: Seq<char>,
    pub blurb: Seq<char>,
    pub allytips: Seq<Seq<char>>,
    pub enemytips: Seq<Seq<char>>,
    pub tags: Seq<Seq<char>>,
    pub partype: Seq<char>,
    pub info: InfoView,
    pub stats: StatsView,
    pub spells: Seq<SpellView>,
    pub passive: PassiveView,
}

impl View for Champion {
    type V = ChampionView;

    open spec fn view(&self) -> ChampionView {
        ChampionView {
            id: self.id@,
            key: self.key@,
            name: self.name@,
            title: self.title@,
            image: self.image@,
            skins: self.skins.deep_view(),
            lore: self.lore@,
            blurb: self.blurb@,
            allytips: self.allytips.deep_view(),
            enemytips: self.enemytips.deep_view(),
            tags: self.tags.deep_view(),
            partype: self.partype@,
            info: self.info@,
            stats: self.stats@,
            spells: self.spells.deep_view(),
            passive: self.passive@,
        }
    }
}

impl DeepView for Champion {
    type V = ChampionView;

    open spec fn deep_view(&self) -> ChampionView {
        self.view()
    }
}

impl Decode for Champion {
    /// An object is read as a record if it has a member for every field,
    /// each of the kind of its field. Members that name no field are passed
    /// over; anything else is no record.
    open spec fn parse(json: JsonView) -> Option<ChampionView> {
        let id = parse_member::<String>(json, "id"@);
        let key = parse_member::<String>(json, "key"@);
        let name = parse_member::<String>(json, "name"@);
        let title = parse_member::<String>(json, "title"@);
        let image = parse_member::<Image>(json, "image"@);
        let skins = parse_member::<Vec<Skin>>(json, "skins"@);
        let lore = parse_member::<String>(json, "lore"@);
        let blurb = parse_member::<String>(json, "blurb"@);
        let allytips = parse_member::<Vec<String>>(json, "allytips"@);
        let enemytips = parse_member::<Vec<String>>(json, "enemytips"@);
        let tags = parse_member::<Vec<String>>(json, "tags"@);
        let partype = parse_member::<String>(json, "partype"@);
        let info = parse_member::<Info>(json, "info"@);
        let stats = parse_member::<Stats>(json, "stats"@);
        let spells = parse_member::<Vec<Spell>>(json, "spells"@);
        let passive = parse_member::<Passive>(json, "passive"@);
        if id is Some && key is Some && name is Some && title is Some && image is Some
            && skins is Some && lore is Some && blurb is Some && allytips is Some
            && enemytips is Some && tags is Some && partype is Some && info is Some
            && stats is Some && spells is Some && passive is Some {
            Some(
                ChampionView {
                    id: id->Some_0,
                    key: key->Some_0,
                    name: name->Some_0,
                    title: title->Some_0,
                    image: image->Some_0,
                    skins: skins->Some_0,
                    lore: lore->Some_0,
                    blurb: blurb->Some_0,
                    allytips: allytips->Some_0,
                    enemytips: enemytips->Some_0,
                    tags: tags->Some_0,
                    partype: partype->Some_0,
                    info: info->Some_0,
                    stats: stats->Some_0,
                    spells: spells->Some_0,
                    passive: passive->Some_0,
                },
            )
        } else {
            None
        }
    }

    fn from_json(json: &Json) -> (value: Option<Champion>) {
        let id = decode_member::<String>(json, "id")?;
        let key = decode_member::<String>(json, "key")?;
        let name = decode_member::<String>(json, "name")?;
        let title = decode_member::<String>(json, "title")?;
        let image = decode_member::<Image>(json, "image")?;
        let skins = decode_member::<Vec<Skin>>(json, "skins")?;
        let lore = decode_member::<String>(json, "lore")?;
        let blurb = decode_member::<String>(json, "blurb")?;
        let allytips = decode_member::<Vec<String>>(json, "allytips")?;
        let enemytips = decode_member::<Vec<String>>(json, "enemytips")?;
        let tags = decode_member::<Vec<String>>(json, "tags")?;
        let partype = decode_member::<String>(json, "partype")?;
        let info = decode_member::<Info>(json, "info")?;
        let stats = decode_member::<Stats>(json, "stats")?;
        let spells = decode_member::<Vec<Spell>>(json, "spells")?;
        let passive = decode_member::<Passive>(json, "passive")?;
        Some(
            Champion {
                id,
                key,
                name,
                title,
                image,
                skins,
                lore,
                blurb,
                allytips,
                enemytips,
                tags,
                partype,
                info,
                stats,
                spells,
                passive,
            },
        )
    }
}

} // verus!
