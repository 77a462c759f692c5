pub mod summoner_filter;
