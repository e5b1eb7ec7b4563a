pub mod coingecko;
