//! Object-type descriptions kept beside the functions in a registry, as
//! `<name>.type` files: which entries they are, and the identifiers the types
//! get.

use vstd::prelude::*;
use crate::registry::{split_file_name, stem_and_extension};

verus! {

/// How the object-type scan treats a registry entry.
#[derive(Debug, PartialEq, Eq)]
pub enum TypeEntry {
    /// Not a regular file: skipped.
    NotAFile,
    /// No extension: skipped.
    NoExtension,
    /// A function module, loaded with the functions.
    Module,
    /// An object type, named by the file's stem.
    ObjectType(String),
    /// Any other extension: skipped.
    Other,
}

/// Scans a registry for object types.
pub struct ObjectTypeLoader {}

impl ObjectTypeLoader {
    pub fn new() -> Self {
        ObjectTypeLoader {}
    }

    /// Decides what a registry entry named `file_name` is to the scan.
    pub fn classify_entry(&self, file_name: &str, is_file: bool) -> (r: TypeEntry)
        ensures
            !is_file ==> r == TypeEntry::NotAFile,
            is_file ==> match stem_and_extension(file_name@) {
                None => r == TypeEntry::NoExtension,
                Some((stem, ext)) => if ext == "wasm"@ {
                    r == TypeEntry::Module
                } else if ext == "type"@ {
                    r matches TypeEntry::ObjectType(n) && n@ == stem
                } else {
                    r == TypeEntry::Other
                },
            },
    {
        if !is_file {
            return TypeEntry::NotAFile;
        }
        match split_file_name(file_name) {
            None => TypeEntry::NoExtension,
            Some((stem, ext)) => {
                let wasm: String = "wasm".to_owned();
                let type_ext: String = "type".to_owned();
                if ext == wasm {
                    TypeEntry::Module
                } else if ext == type_ext {
                    TypeEntry::ObjectType(stem)
                } else {
                    TypeEntry::Other
                }
            },
        }
    }

    /// Numbers the object types found, in order, from 1: identifier 0 is the
    /// root object type.
    pub fn assign_type_ids(&self, names: &Vec<String>) -> (r: Vec<(u64, String)>)
        requires
            names@.len() < u64::MAX,
        ensures
            r@.len() == names@.len(),
            forall|i: int|
                0 <= i < r@.len() ==> (#[trigger] r@[i]).0 == i + 1 && r@[i].1@ == names@[i]@,
    {
        let mut out: Vec<(u64, String)> = Vec::new();
        let n = names.len();
        let mut i: usize = 0;
        while i < n
            invariant
                n == names@.len(),
                n < u64::MAX,
                i <= n,
                out@.len() == i,
                forall|k: int| 0 <= k < i ==> (#[trigger] out@[k]).0 == k + 1 && out@[k].1@ == names@[k]@,
            decreases n - i,
        {
            out.push(((i + 1) as u64, names[i].clone()));
            i = i + 1;
        }
        out
    }
}

} // verus!
