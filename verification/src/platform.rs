use vstd::prelude::*;
use vstd::string::StringExecFns;

verus! {

/// A shard of the game service. Each has a host of its own.
#[derive(Debug, Clone, Copy, PartialEq, Eq, Structural)]
pub enum Platform {
    BR1,
    EUN1,
    EUW1,
    JP1,
    KR,
    LA1,
    LA2,
    NA1,
    OC1,
    TR1,
    RU,
}

impl Platform {
    /// The label of the shard in its host name.
    pub open spec fn label(self) -> Seq<char> {
        match self {
            Platform::BR1 => "br1"@,
            Platform::EUN1 => "eun1"@,
            Platform::EUW1 => "euw1"@,
            Platform::JP1 => "jp1"@,
            Platform::KR => "kr"@,
            Platform::LA1 => "la1"@,
            Platform::LA2 => "la2"@,
            Platform::NA1 => "na1"@,
            Platform::OC1 => "oc1"@,
            Platform::TR1 => "tr1"@,
            Platform::RU => "ru"@,
        }
    }
}

/// The base address of a host of the game service, given its label.
pub open spec fn service_url(label: Seq<char>) -> Seq<char> {
    "https://"@ + label + ".api.riotgames.com"@
}

/// Builds the base address of the host that `label` names.
pub(crate) fn build_service_url(label: &str) -> (url: String)
    ensures
        url@ == service_url(label@),
{
    String::from_str("https://").concat(label).concat(".api.riotgames.com")
}

/// The base address of a shard: `https://`, the shard's label, `.api.riotgames.com`.
pub fn get_platform_url(platform: &Platform) -> (url: String)
    ensures
        url@ == service_url(platform.label()),
{
    let label = match platform {
        Platform::BR1 => "br1",
        Platform::EUN1 => "eun1",
        Platform::EUW1 => "euw1",
        Platform::JP1 => "jp1",
        Platform::KR => "kr",
        Platform::LA1 => "la1",
        Platform::LA2 => "la2",
        Platform::NA1 => "na1",
        Platform::OC1 => "oc1",
        Platform::TR1 => "tr1",
        Platform::RU => "ru",
    };
    build_service_url(label)
}

} // verus!
