pub mod orbit;
