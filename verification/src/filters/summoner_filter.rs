use vstd::prelude::*;

verus! {

/// The four ways to name a player, in the order in which a lookup tries them.
#[derive(Debug, Clone, Copy, PartialEq, Eq, Structural)]
pub enum LookupField {
    AccountId,
    Name,
    Id,
    Puuid,
}

/// What a caller knows of the player it looks for. A lookup tries each
/// field that is filled in, one after the other, until one finds the
/// player.
#[derive(Debug, Clone, Default, PartialEq)]
pub struct SummonerFilter {
    pub account_id: Option<String>,
    pub name: Option<String>,
    pub id: Option<String>,
    pub puuid: Option<String>,
}

pub ghost struct SummonerFilterView {
    pub account_id: Option<Seq<char>>,
    pub name: Option<Seq<char>>,
    pub id: Option<Seq<char>>,
    pub puuid: Option<Seq<char>>,
}

impl View for SummonerFilter {
    type V = SummonerFilterView;

    open spec fn view(&self) -> SummonerFilterView {
        SummonerFilterView {
            account_id: self.account_id.deep_view(),
            name: self.name.deep_view(),
            id: self.id.deep_view(),
            puuid: self.puuid.deep_view(),
        }
    }
}

impl DeepView for SummonerFilter {
    type V = SummonerFilterView;

    open spec fn deep_view(&self) -> SummonerFilterView {
        self.view()
    }
}

impl SummonerFilterView {
    /// What the filter holds in `field`.
    pub open spec fn value(self, field: LookupField) -> Option<Seq<char>> {
        match field {
            LookupField::AccountId => self.account_id,
            LookupField::Name => self.name,
            LookupField::Id => self.id,
            LookupField::Puuid => self.puuid,
        }
    }

    /// The field that a lookup tries next: the first that is filled in, the
    /// account identifier before the name, the name before the summoner
    /// identifier, and that before the PUUID.
    pub open spec fn leading(self) -> Option<LookupField> {
        if self.account_id is Some {
            Some(LookupField::AccountId)
        } else if self.name is Some {
            Some(LookupField::Name)
        } else if self.id is Some {
            Some(LookupField::Id)
        } else if self.puuid is Some {
            Some(LookupField::Puuid)
        } else {
            None
        }
    }

    /// The filter with `field` emptied.
    pub open spec fn without(self, field: LookupField) -> SummonerFilterView {
        match field {
            LookupField::AccountId => SummonerFilterView { account_id: None, ..self },
            LookupField::Name => SummonerFilterView { name: None, ..self },
            LookupField::Id => SummonerFilterView { id: None, ..self },
            LookupField::Puuid => SummonerFilterView { puuid: None, ..self },
        }
    }

    /// How many fields are filled in.
    pub open spec fn filled(self) -> nat {
        let a: nat = if self.account_id is Some { 1 } else { 0 };
        let n: nat = if self.name is Some { 1 } else { 0 };
        let i: nat = if self.id is Some { 1 } else { 0 };
        let p: nat = if self.puuid is Some { 1 } else { 0 };
        a + n + i + p
    }
}

impl LookupField {
    /// The place of the field in the order of a lookup, from 0.
    pub open spec fn rank(self) -> nat {
        match self {
            LookupField::AccountId => 0,
            LookupField::Name => 1,
            LookupField::Id => 2,
            LookupField::Puuid => 3,
        }
    }
}

impl SummonerFilter {
    /// The field that a lookup tries next, if any is filled in.
    pub fn leading(&self) -> (field: Option<LookupField>)
        ensures
            field == self@.leading(),
    {
        if self.account_id.is_some() {
            Some(LookupField::AccountId)
        } else if self.name.is_some() {
            Some(LookupField::Name)
        } else if self.id.is_some() {
            Some(LookupField::Id)
        } else if self.puuid.is_some() {
            Some(LookupField::Puuid)
        } else {
            None
        }
    }

    /// What the filter holds in `field`.
    pub fn value(&self, field: LookupField) -> (value: Option<&String>)
        ensures
            value.deep_view() == self@.value(field),
    {
        match field {
            LookupField::AccountId => self.account_id.as_ref(),
            LookupField::Name => self.name.as_ref(),
            LookupField::Id => self.id.as_ref(),
            LookupField::Puuid => self.puuid.as_ref(),
        }
    }

    /// The filter with `field` emptied and the other fields as they were.
    pub fn without(self, field: LookupField) -> (rest: SummonerFilter)
        ensures
            rest@ == self@.without(field),
    {
        let SummonerFilter { account_id, name, id, puuid } = self;
        match field {
            LookupField::AccountId => SummonerFilter { account_id: None, name, id, puuid },
            LookupField::Name => SummonerFilter { account_id, name: None, id, puuid },
            LookupField::Id => SummonerFilter { account_id, name, id: None, puuid },
            LookupField::Puuid => SummonerFilter { account_id, name, id, puuid: None },
        }
    }
}

} // verus!
