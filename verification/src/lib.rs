//! NGX Radar: screening of Nigerian Exchange listings in five target sectors, with the
//! decisions of the data fetch, the reading of the daily series reply, the curated
//! director-dealing list and its signal score.
pub mod daily;
pub mod fetch;
pub mod insider;
pub mod screener;
pub mod sector;
pub mod synthetic;
pub mod text;
pub mod universe;
