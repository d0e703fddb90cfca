//! Game rules of the tavern: pouring and mixing liquids, the daily flow of
//! customers, the menus and the drawers (book and shelf) that the player pulls.

pub mod alchemy;
pub mod interaction;
pub mod level;
pub mod menu;
pub mod persona;
pub mod states;
pub mod table;
pub mod text;
pub mod timer;
