//! Persistence for a 3D engine's entity transform: a transform is written to
//! a small text savefile when the application closes and restored from it at
//! the next startup.
//!
//! The heart of the crate is the verified transform text codec in
//! [`serialization`]: a fixed, versioned, line-oriented format for the ten
//! float components of a pose, with a strict decoder and a precise error
//! taxonomy. The types here carry the little configuration the surrounding
//! application needs: which entity a savefile belongs to, and where the
//! savefiles live. Reading and writing the files, and wiring the codec into
//! an engine's lifecycle, are the surrounding application's business.

use vstd::prelude::*;
use vstd::string::StringExecFns;

pub mod serialization;

verus! {

/// Tags an entity whose transform is saved and restored; the name derives
/// the savefile's name.
#[derive(Debug, Clone, PartialEq, Eq)]
pub struct WhereWasI {
    /// The name that derives the savefile's name.
    pub name: String,
}

impl WhereWasI {
    /// Tag an entity under the given name.
    pub fn from_name(name: &str) -> (r: Self)
        ensures
            r.name@ == name@,
    {
        WhereWasI { name: name.to_owned() }
    }

    /// The tag conventionally used for cameras: the name `camera`.
    pub fn camera() -> (r: Self)
        ensures
            r.name@ == "camera"@,
    {
        WhereWasI::from_name("camera")
    }
}

/// Configuration of the save/restore integration: where the savefiles live.
#[derive(Debug, Clone, PartialEq, Eq)]
pub struct WhereWasIPlugin {
    /// The directory where savefiles are stored and loaded from.
    pub directory: String,
}

impl Default for WhereWasIPlugin {
    /// The conventional savefile directory.
    fn default() -> (r: Self)
        ensures
            r.directory@ == "./assets/saves"@,
    {
        WhereWasIPlugin { directory: "./assets/saves".to_owned() }
    }
}

/// The path of the savefile for the entity tagged `name`:
/// `<directory>/<name>.state`.
pub fn savefile_path(directory: &str, name: &str) -> (r: String)
    ensures
        r@ == directory@ + "/"@ + name@ + ".state"@,
{
    let mut path: String = directory.to_owned();
    path.append("/");
    path.append(name);
    path.append(".state");
    path
}

} // verus!
