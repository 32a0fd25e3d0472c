//! The layout and bookkeeping core of a Qt back end for a retained-mode GUI toolkit:
//! how controls measure themselves, where containers place their children, how
//! child lists, tables, trees and menus are kept, and the decisions taken when
//! the toolkit's widgets report events.
use vstd::prelude::*;

pub mod layout;
pub mod geometry;
pub mod linear;
pub mod children;
pub mod splitted;
pub mod table;
pub mod tree;
pub mod menu;
pub mod control;
pub mod frame;
pub mod image;
pub mod progress;
pub mod message;
pub mod find;
pub mod application;
pub mod window;

verus! {

} // verus!
