//! The function registry: which registry entries are functions, and the
//! published functions by name.

use vstd::prelude::*;
use crate::text::{find_last, last_index_of};

verus! {

/// How a registry entry is treated when the registry is built.
#[derive(Debug, PartialEq, Eq)]
pub enum EntryKind {
    /// Not a regular file: skipped.
    NotAFile,
    /// The file name has no extension: skipped.
    NoExtension,
    /// The extension is not `wasm`: skipped.
    NotWasm,
    /// A function, published under the file's stem.
    Function(String),
}

/// A file name's stem and extension, split at the last `.` as `Path` does: a
/// name with no `.`, or whose only `.` leads it, or `..`, has no extension.
pub open spec fn stem_and_extension(name: Seq<char>) -> Option<(Seq<char>, Seq<char>)> {
    let k = last_index_of(name, '.');
    if name == ".."@ || k <= 0 {
        None
    } else {
        Some((name.subrange(0, k), name.subrange(k + 1, name.len() as int)))
    }
}

/// Splits a file name into stem and extension.
pub fn split_file_name(file_name: &str) -> (r: Option<(String, String)>)
    ensures
        match stem_and_extension(file_name@) {
            None => r is None,
            Some((stem, ext)) => r matches Some((s, e)) && s@ == stem && e@ == ext,
        },
{
    let whole: String = file_name.to_owned();
    let dots: String = "..".to_owned();
    let n = file_name.unicode_len();
    match find_last(file_name, '.') {
        None => None,
        Some(k) => {
            if whole == dots || k == 0 {
                return None;
            }
            let stem: String = file_name.substring_char(0, k).to_owned();
            let ext: String = file_name.substring_char(k + 1, n).to_owned();
            Some((stem, ext))
        },
    }
}

/// Decides what a registry entry named `file_name` is.
pub fn classify_entry(file_name: &str, is_file: bool) -> (r: EntryKind)
    ensures
        !is_file ==> r == EntryKind::NotAFile,
        is_file ==> match stem_and_extension(file_name@) {
            None => r == EntryKind::NoExtension,
            Some((stem, ext)) => if ext == "wasm"@ {
                r matches EntryKind::Function(n) && n@ == stem
            } else {
                r == EntryKind::NotWasm
            },
        },
{
    if !is_file {
        return EntryKind::NotAFile;
    }
    match split_file_name(file_name) {
        None => EntryKind::NoExtension,
        Some((stem, ext)) => {
            let wasm: String = "wasm".to_owned();
            if ext == wasm {
                EntryKind::Function(stem)
            } else {
                EntryKind::NotWasm
            }
        },
    }
}

/// The function published under `name`: the last one inserted.
pub open spec fn function_lookup<F>(entries: Seq<(Seq<char>, F)>, name: Seq<char>) -> Option<F>
    decreases entries.len(),
{
    if entries.len() == 0 {
        None
    } else if entries.last().0 == name {
        Some(entries.last().1)
    } else {
        function_lookup(entries.drop_last(), name)
    }
}

/// The published functions. Filled at startup, read-only afterwards.
pub struct FunctionManager<F> {
    functions: Vec<(String, F)>,
}

impl<F> FunctionManager<F> {
    pub closed spec fn entries(&self) -> Seq<(Seq<char>, F)> {
        self.functions@.map_values(|p: (String, F)| (p.0@, p.1))
    }

    /// The function published under `name`, if any.
    pub open spec fn published(&self, name: Seq<char>) -> Option<F> {
        function_lookup(self.entries(), name)
    }

    /// A registry with no functions.
    pub fn new() -> (r: Self)
        ensures
            forall|name: Seq<char>| r.published(name) is None,
    {
        let r = FunctionManager { functions: Vec::new() };
        assert(r.entries() =~= Seq::<(Seq<char>, F)>::empty());
        r
    }

    /// Publishes `function` under `name`, replacing any function published
    /// under it before.
    pub fn insert_function(&mut self, name: String, function: F)
        ensures
            final(self).published(name@) == Some(function),
            forall|other: Seq<char>| other != name@ ==> final(self).published(other) == old(
                self,
            ).published(other),
    {
        let ghost old_entries = self.entries();
        let ghost key = name@;
        self.functions.push((name, function));
        assert(self.entries().drop_last() =~= old_entries);
        assert(self.entries().last() == (key, function));
    }

    /// The function published under `name`.
    pub fn get_function(&self, name: &str) -> (r: Option<&F>)
        ensures
            match r {
                Some(f) => self.published(name@) == Some(*f),
                None => self.published(name@) is None,
            },
    {
        let wanted: String = name.to_owned();
        let mut i: usize = self.functions.len();
        assert(self.entries().subrange(0, i as int) =~= self.entries());
        while i > 0
            invariant
                i <= self.functions@.len(),
                wanted@ == name@,
                function_lookup(self.entries(), name@) == function_lookup(
                    self.entries().subrange(0, i as int),
                    name@,
                ),
            decreases i,
        {
            let ghost prefix = self.entries().subrange(0, i as int);
            assert(prefix.drop_last() =~= self.entries().subrange(0, i - 1));
            if self.functions[i - 1].0 == wanted {
                return Some(&self.functions[i - 1].1);
            }
            i = i - 1;
        }
        None
    }
}

} // verus!
