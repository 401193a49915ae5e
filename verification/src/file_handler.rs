use vstd::prelude::*;

use crate::util::append_range;
use crate::util::append_str;
use crate::util::chars_of;
use crate::util::string_of;

verus! {

/// The position of the last occurrence of `c` in `s`, or `-1`.
pub open spec fn rfind(s: Seq<char>, c: char) -> int
    decreases s.len(),
{
    if s.len() == 0 {
        -1
    } else if s[s.len() - 1] == c {
        s.len() - 1
    } else {
        rfind(s.drop_last(), c)
    }
}

/// Where the file-name portion of a `/`-separated path begins: just
/// after the last separator, or at the start where there is none.
pub open spec fn file_name_start(p: Seq<char>) -> int {
    rfind(p, '/') + 1
}

/// The file-name portion of a path.
pub open spec fn file_name_spec(p: Seq<char>) -> Seq<char> {
    p.subrange(file_name_start(p), p.len() as int)
}

/// Whether a file-name portion actually names a file: not empty and not
/// one of the relative components.
pub open spec fn valid_file_name(name: Seq<char>) -> bool {
    name.len() > 0 && name != seq!['.'] && name != seq!['.', '.']
}

/// The stem of a file name: everything before the final dot, or the
/// whole name where there is no dot, or only a leading one.
pub open spec fn stem_spec(name: Seq<char>) -> Seq<char> {
    let d = rfind(name, '.');
    if d <= 0 {
        name
    } else {
        name.subrange(0, d)
    }
}

/// The extension of a file name: everything after the final dot, or
/// empty where the stem is the whole name.
pub open spec fn ext_spec(name: Seq<char>) -> Seq<char> {
    let d = rfind(name, '.');
    if d <= 0 {
        Seq::empty()
    } else {
        name.subrange(d + 1, name.len() as int)
    }
}

/// The output path for the translated content: the input's directory
/// and stem, the target language code and a fixed suffix, keeping the
/// original extension.  Nothing where the path holds no usable file
/// name.
pub open spec fn translated_name_spec(p: Seq<char>, target: Seq<char>) -> Option<Seq<char>> {
    let name = file_name_spec(p);
    if valid_file_name(name) {
        Some(
            p.subrange(0, file_name_start(p)) + stem_spec(name) + "_"@ + target + "_translated."@
                + ext_spec(name),
        )
    } else {
        None
    }
}

/// The position of the last occurrence of `c`, if any.
fn rfind_exec(v: &Vec<char>, c: char) -> (r: Option<usize>)
    ensures
        match r {
            Some(i) => rfind(v@, c) == i as int && i < v@.len(),
            None => rfind(v@, c) == -1,
        },
{
    let mut i: usize = v.len();
    proof {
        assert(v@.subrange(0, v@.len() as int) =~= v@);
    }
    while i > 0
        invariant
            i <= v@.len(),
            rfind(v@, c) == rfind(v@.subrange(0, i as int), c),
        decreases i,
    {
        if v[i - 1] == c {
            proof {
                assert(v@.subrange(0, i as int)[i - 1] == v@[i - 1]);
            }
            return Some(i - 1);
        }
        proof {
            assert(v@.subrange(0, i as int)[i - 1] == v@[i - 1]);
            assert(v@.subrange(0, i as int).drop_last() =~= v@.subrange(0, i - 1));
        }
        i = i - 1;
    }
    None
}

/// Handles the path arithmetic for one input file; reading the file and
/// writing its translation are its callers' business.
#[derive(Debug, PartialEq, Eq)]
pub struct FileHandler {
    pub file_path: String,
}

impl FileHandler {
    /// Creates a handler for the given file path.
    pub fn new(file_path: String) -> (r: FileHandler)
        ensures
            r.file_path == file_path,
    {
        FileHandler { file_path }
    }

    /// Computes the path of the translated output file; `None` where no
    /// file name can be extracted from the input path.
    pub fn translated_file_name(&self, target_lang: &str) -> (r: Option<String>)
        ensures
            match r {
                Some(s) => translated_name_spec(self.file_path@, target_lang@) == Some(s@),
                None => translated_name_spec(self.file_path@, target_lang@) is None,
            },
    {
        let v = chars_of(self.file_path.as_str());
        let n = v.len();
        let start: usize = match rfind_exec(&v, '/') {
            Some(i) => i + 1,
            None => 0,
        };
        let mut name: Vec<char> = Vec::new();
        append_range(&mut name, &v, start, n);
        proof {
            assert(name@ =~= file_name_spec(self.file_path@));
        }
        let name_len = name.len();
        if name_len == 0 {
            return None;
        }
        if name_len == 1 && name[0] == '.' {
            proof {
                assert(name@ =~= seq!['.']);
            }
            return None;
        }
        if name_len == 2 && name[0] == '.' && name[1] == '.' {
            proof {
                assert(name@ =~= seq!['.', '.']);
            }
            return None;
        }
        proof {
            if name@ == seq!['.'] {
                assert(name@.len() == 1 && name@[0] == '.');
            }
            if name@ == seq!['.', '.'] {
                assert(name@.len() == 2 && name@[0] == '.' && name@[1] == '.');
            }
        }
        let (stem_end, ext_start): (usize, usize) = match rfind_exec(&name, '.') {
            Some(d) => {
                if d > 0 {
                    (d, d + 1)
                } else {
                    (name_len, name_len)
                }
            },
            None => (name_len, name_len),
        };
        let mut out: Vec<char> = Vec::new();
        append_range(&mut out, &v, 0, start);
        append_range(&mut out, &name, 0, stem_end);
        append_str(&mut out, "_");
        append_str(&mut out, target_lang);
        append_str(&mut out, "_translated.");
        append_range(&mut out, &name, ext_start, name_len);
        proof {
            assert(name@.subrange(0, stem_end as int) =~= stem_spec(name@));
            assert(name@.subrange(ext_start as int, name_len as int) =~= ext_spec(name@));
            assert(out@ =~= p_subrange_concat(self.file_path@, target_lang@, name@));
            assert(Some(out@) == translated_name_spec(self.file_path@, target_lang@));
        }
        Some(string_of(&out))
    }
}

/// The assembled output path, written out once for the proof above.
pub open spec fn p_subrange_concat(p: Seq<char>, target: Seq<char>, name: Seq<char>) -> Seq<char> {
    p.subrange(0, file_name_start(p)) + stem_spec(name) + "_"@ + target + "_translated."@
        + ext_spec(name)
}

} // verus!
