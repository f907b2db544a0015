pub mod initialize;
pub mod jupiter;
pub mod management;
pub mod price_monitor;
pub mod trading;
