//! Reflective field addressing between a dynamically typed scripting layer and
//! the typed records of an entity store.
//!
//! A [`reference::Reference`] names a record and a dotted path into it; making
//! one never consults the store. [`resolve::resolve`] walks the path against
//! the live store and classifies what it addresses, by the terminal kind
//! table of [`store::KindTable`]. [`coerce`] says how a resolved value
//! surfaces in a script and how a script's value becomes the exact native
//! value of a field. [`guard`] admits or refuses an assignment before
//! anything is stored, [`report`] words the failures, and [`phase`] orders
//! the work of one update.
//!
//! The library reads the store through the few declarations of [`store`] and
//! never writes to it: an admitted assignment is handed back as a value that
//! says what is to be stored where.

pub mod kind;
pub mod text;
pub mod reference;
pub mod store;
pub mod resolve;
pub mod value;
pub mod coerce;
pub mod guard;
pub mod entity;
pub mod report;
pub mod phase;
