pub mod charging;
pub mod monitoring;
pub mod rewards;
