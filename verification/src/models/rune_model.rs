use crate::decode::{Decode, decode_field, decode_member, parse_field, parse_member};
use crate::json::{Json, JsonView};
use vstd::prelude::*;

verus! {

/// One rune: a leaf of a tree.
#[derive(Debug, Default, PartialEq)]
pub struct RuneData {
    pub id: i32,
    pub key: String,
    pub icon: String,
    pub name: String,
    pub short_desc: String,
    pub long_desc: String,
}

/// What a `RuneData` holds.
pub ghost struct RuneDataView {
    pub id: i32,
    pub key: Seq<char>,
    pub icon: Seq<char>,
    pub name: Seq<char>,
    pub short_desc: Seq<char>,
    pub long_desc: Seq<char>,
}

impl View for RuneData {
    type V = RuneDataView;

    open spec fn view(&self) -> RuneDataView {
        RuneDataView {
            id: self.id,
            key: self.key@,
            icon: self.icon@,
            name: self.name@,
            short_desc: self.short_desc@,
            long_desc: self.long_desc@,
        }
    }
}

impl DeepView for RuneData {
    type V = RuneDataView;

    open spec fn deep_view(&self) -> RuneDataView {
        self.view()
    }
}

impl Decode for RuneData {
    /// An object is read as a record if it has a member for every field,
    /// each of the kind of its field. Members that name no field are passed
    /// over; anything else is no record.
    open spec fn parse(json: JsonView) -> Option<RuneDataView> {
        let id = parse_member::<i32>(json, "id"@);
        let key = parse_member::<String>(json, "key"@);
        let icon = parse_member::<String>(json, "icon"@);
        let name = parse_member::<String>(json, "name"@);
        let short_desc = parse_field::<String>(json, "short_desc"@, "shortDesc"@);
        let long_desc = parse_field::<String>(json, "long_desc"@, "longDesc"@);
        if id is Some && key is Some && icon is Some && name is Some && short_desc is Some
            && long_desc is Some {
            Some(
                RuneDataView {
                    id: id->Some_0,
                    key: key->Some_0,
                    icon: icon->Some_0,
                    name: name->Some_0,
                    short_desc: short_desc->Some_0,
                    long_desc: long_desc->Some_0,
                },
            )
        } else {
            None
        }
    }

    fn from_json(json: &Json) -> (value: Option<RuneData>) {
        let id = decode_member::<i32>(json, "id")?;
        let key = decode_member::<String>(json, "key")?;
        let icon = decode_member::<String>(json, "icon")?;
        let name = decode_member::<String>(json, "name")?;
        let short_desc = decode_field::<String>(json, "short_desc", "shortDesc")?;
        let long_desc = decode_field::<String>(json, "long_desc", "longDesc")?;
        Some(RuneData { id, key, icon, name, short_desc, long_desc })
    }
}

/// A slot of a tree: the runes among which one is picked.
#[derive(Debug, Default, PartialEq)]
pub struct RuneSlot {
    pub runes: Vec<RuneData>,
}

/// What a `RuneSlot` holds.
pub ghost struct RuneSlotView {
    pub runes: Seq<RuneDataView>,
}

impl View for RuneSlot {
    type V = RuneSlotView;

    open spec fn view(&self) -> RuneSlotView {
        RuneSlotView {
            runes: self.runes.deep_view(),
        }
    }
}

impl DeepView for RuneSlot {
    type V = RuneSlotView;

    open spec fn deep_view(&self) -> RuneSlotView {
        self.view()
    }
}

impl Decode for RuneSlot {
    /// An object is read as a record if it has a member for every field,
    /// each of the kind of its field. Members that name no field are passed
    /// over; anything else is no record.
    open spec fn parse(json: JsonView) -> Option<RuneSlotView> {
        let runes = parse_member::<Vec<RuneData>>(json, "runes"@);
        if runes is Some {
            Some(
                RuneSlotView {
                    runes: runes->Some_0,
                },
            )
        } else {
            None
        }
    }

    fn from_json(json: &Json) -> (value: Option<RuneSlot>) {
        let runes = decode_member::<Vec<RuneData>>(json, "runes")?;
        Some(RuneSlot { runes })
    }
}

/// A tree of runes, slot by slot.
#[derive(Debug, Default, PartialEq)]
pub struct Rune {
    pub id: i32,
    pub key: String,
    pub icon: String,
    pub name: String,
    pub slots: Vec<RuneSlot>,
}

/// What a `Rune` holds.
pub ghost struct RuneView {
    pub id: i32,
    pub key: Seq<char>,
    pub icon: Seq<char>,
    pub name: Seq<char>,
    pub slots: Seq<RuneSlotView>,
}

impl View for Rune {
    type V = RuneView;

    open spec fn view(&self) -> RuneView {
        RuneView {
            id: self.id,
            key: self.key@,
            icon: self.icon@,
            name: self.name@,
            slots: self.slots.deep_view(),
        }
    }
}

impl DeepView for Rune {
    type V = RuneView;

    open spec fn deep_view(&self) -> RuneView {
        self.view()
    }
}

impl Decode for Rune {
    /// An object is read as a record if it has a member for every field,
    /// each of the kind of its field. Members that name no field are passed
    /// over; anything else is no record.
    open spec fn parse(json: JsonView) -> Option<RuneView> {
        let id = parse_member::<i32>(json, "id"@);
        let key = parse_member::<String>(json, "key"@);
        let icon = parse_member::<String>(json, "icon"@);
        let name = parse_member::<String>(json, "name"@);
        let slots = parse_member::<Vec<RuneSlot>>(json, "slots"@);
        if id is Some && key is Some && icon is Some && name is Some && slots is Some {
            Some(
                RuneView {
                    id: id->Some_0,
                    key: key->Some_0,
                    icon: icon->Some_0,
                    name: name->Some_0,
                    slots: slots->Some_0,
                },
            )
        } else {
            None
        }
    }

    fn from_json(json: &Json) -> (value: Option<Rune>) {
        let id = decode_member::<i32>(json, "id")?;
        let key = decode_member::<String>(json, "key")?;
        let icon = decode_member::<String>(json, "icon")?;
        let name = decode_member::<String>(json, "name")?;
        let slots = decode_member::<Vec<RuneSlot>>(json, "slots")?;
        Some(Rune { id, key, icon, name, slots })
    }
}

} // verus!
