pub mod champion_info_model;
pub mod champion_model;
pub mod rune_model;
pub mod summoner_model;
