//! Choice of the data-file decoder from the path's extension alone.
//!
//! The extension is the part of the file name after its last dot, as long as
//! the dot is not the name's first character; it is compared after ASCII
//! lowercasing, so the choice is case-insensitive.

use vstd::prelude::*;
use crate::text::{lower, lower_string, str_eq};

verus! {

/// Index of the last occurrence of `c` in `s`, or -1 when `c` does not occur.
pub open spec fn last_index_of(s: Seq<char>, c: char) -> int
    decreases s.len(),
{
    if s.len() == 0 {
        -1
    } else if s[s.len() - 1] == c {
        s.len() - 1
    } else {
        last_index_of(s.drop_last(), c)
    }
}

pub proof fn lemma_last_index_of_bounds(s: Seq<char>, c: char)
    ensures
        -1 <= last_index_of(s, c) < s.len(),
    decreases s.len(),
{
    if s.len() != 0 && s[s.len() - 1] != c {
        lemma_last_index_of_bounds(s.drop_last(), c);
    }
}

/// The file-name component of a path: everything after the last `/`, or the
/// whole path when it has no `/`.
pub open spec fn file_name_of(path: Seq<char>) -> Seq<char> {
    path.skip(last_index_of(path, '/') + 1)
}

/// The extension of a path's file name, not lowercased: the part after the
/// last dot, provided that dot is preceded by at least one character. A name
/// without a dot, or whose only dot opens it, has no extension.
pub open spec fn extension_of(path: Seq<char>) -> Option<Seq<char>> {
    let name = file_name_of(path);
    let dot = last_index_of(name, '.');
    if dot <= 0 {
        Option::None
    } else {
        Option::Some(name.skip(dot + 1))
    }
}

/// The lowercased extension, with the empty string standing for "none".
pub open spec fn ext_lower_of(path: Seq<char>) -> Seq<char> {
    match extension_of(path) {
        Option::None => Seq::empty(),
        Option::Some(e) => lower(e),
    }
}

/// The two data-file formats the engine decodes.
#[derive(Clone, Copy, Debug, PartialEq, Eq)]
pub enum DataFormat {
    Json,
    Yaml,
}

/// The decoder chosen for a path: `json` selects JSON, `yaml` and `yml`
/// select YAML, and every other extension (or none) selects nothing.
pub open spec fn format_of_path(path: Seq<char>) -> Option<DataFormat> {
    let e = ext_lower_of(path);
    if e == "json"@ {
        Option::Some(DataFormat::Json)
    } else if e == "yaml"@ || e == "yml"@ {
        Option::Some(DataFormat::Yaml)
    } else {
        Option::None
    }
}

fn rfind(s: &str, c: char) -> (r: Option<usize>)
    ensures
        match r {
            Option::Some(i) => last_index_of(s@, c) == i as int && i < s@.len(),
            Option::None => last_index_of(s@, c) == -1,
        },
{
    let n: usize = s.unicode_len();
    proof {
        assert(s@.take(n as int) =~= s@);
    }
    let mut i: usize = n;
    while i > 0
        invariant
            i <= n,
            n == s@.len(),
            last_index_of(s@, c) == last_index_of(s@.take(i as int), c),
        decreases i,
    {
        let ch = s.get_char(i - 1);
        if ch == c {
            return Some(i - 1);
        }
        proof {
            assert(s@.take(i as int).drop_last() =~= s@.take(i - 1));
        }
        i -= 1;
    }
    None
}

/// Computes the lowercased extension of `path` and the format it selects.
pub fn data_format_of(path: &str) -> (r: (String, Option<DataFormat>))
    ensures
        r.0@ == ext_lower_of(path@),
        r.1 == format_of_path(path@),
{
    let n: usize = path.unicode_len();
    let start: usize = match rfind(path, '/') {
        Some(i) => i + 1,
        None => 0,
    };
    let name: &str = path.substring_char(start, n);
    proof {
        assert(name@ =~= file_name_of(path@));
    }
    let m: usize = name.unicode_len();
    let lowered: String = match rfind(name, '.') {
        Some(dot) if dot > 0 => lower_string(name.substring_char(dot + 1, m)),
        _ => String::new(),
    };
    proof {
        assert(lowered@ == ext_lower_of(path@));
    }
    let fmt: Option<DataFormat> = if str_eq(lowered.as_str(), "json") {
        Some(DataFormat::Json)
    } else if str_eq(lowered.as_str(), "yaml") || str_eq(lowered.as_str(), "yml") {
        Some(DataFormat::Yaml)
    } else {
        None
    };
    (lowered, fmt)
}

} // verus!
