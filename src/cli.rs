//! Command-line configuration values.

use vstd::prelude::*;
use crate::text::{find_from, index_of_from};

verus! {

/// The key and value of a `key=value` setting: the text before the first `=`,
/// and the text after it up to the next `=` or the end. `None` without `=`.
pub open spec fn config_entry_of(s: Seq<char>) -> Option<(Seq<char>, Seq<char>)> {
    let i = index_of_from(s, '=', 0);
    if i < 0 {
        None
    } else {
        let j = index_of_from(s, '=', i + 1);
        let end = if j < 0 { s.len() as int } else { j };
        Some((s.subrange(0, i), s.subrange(i + 1, end)))
    }
}

/// Parses one `-C key=value` setting.
pub fn parse_config_entry(entry: &str) -> (r: Option<(String, String)>)
    ensures
        match config_entry_of(entry@) {
            None => r is None,
            Some((k, v)) => r matches Some((key, value)) && key@ == k && value@ == v,
        },
{
    let n = entry.unicode_len();
    match find_from(entry, '=', 0) {
        None => None,
        Some(i) => {
            let end = match find_from(entry, '=', i + 1) {
                Some(j) => j,
                None => n,
            };
            let key: String = entry.substring_char(0, i).to_owned();
            let value: String = entry.substring_char(i + 1, end).to_owned();
            Some((key, value))
        },
    }
}

} // verus!
