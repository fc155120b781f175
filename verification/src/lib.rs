//! A text-based web browser served over the Language Server Protocol:
//! the server's decisions (what it answers to each message, what it
//! advertises at initialization, where its scratch directory lives) as
//! verified functions over plain values.

pub mod capabilities;
pub mod decimal;
pub mod lsp_ext;
pub mod message;
pub mod server;
pub mod tab;
pub mod wire;
pub mod worker;

use vstd::prelude::*;
use crate::decimal::{decimal_of, u32_to_decimal};

verus! {

/// The name of the scratch directory of the server process `process_id`.
pub open spec fn temp_dir_name(process_id: u32) -> Seq<char> {
    "web-browser-lsp-"@ + decimal_of(process_id as nat)
}

/// Whether `c` ends a path with a separator on a platform whose main
/// separator is `sep`: `/` always does, and so does `sep` itself.
pub open spec fn is_path_separator(c: char, sep: char) -> bool {
    c == '/' || c == sep
}

/// `name` joined onto `base` as a relative path component, as `Path::join`
/// does on a platform whose main separator is `sep`: `sep` goes between
/// them unless `base` is empty or already ends with a separator.
pub open spec fn join_path(base: Seq<char>, sep: char, name: Seq<char>) -> Seq<char> {
    if base.len() == 0 || is_path_separator(base.last(), sep) {
        base + name
    } else {
        base.push(sep) + name
    }
}

/// Where the scratch directory of the process `process_id` lives under the
/// system's temporary directory `base`, on a platform whose main separator
/// is `sep`.
pub open spec fn temp_dir_path(base: Seq<char>, sep: char, process_id: u32) -> Seq<char> {
    join_path(base, sep, temp_dir_name(process_id))
}

/// The platform's main path separator, `std::path::MAIN_SEPARATOR`.
///
/// Trusted: std documents it as `/` on Unix and `\` on Windows.
#[verifier::external_body]
fn main_separator() -> (sep: char)
    ensures
        sep == '/' || sep == '\\',
{
    std::path::MAIN_SEPARATOR
}

/// The scratch directory of the server process, where its log goes.
pub struct TempDir {
    path: String,
}

impl View for TempDir {
    type V = Seq<char>;

    closed spec fn view(&self) -> Seq<char> {
        self.path@
    }
}

impl TempDir {
    /// The scratch directory of the process `process_id` under the system's
    /// temporary directory `base`. Creating it on disk is the caller's part.
    pub fn new(base: &str, process_id: u32) -> (dir: TempDir)
        ensures
            exists|sep: char|
                (sep == '/' || sep == '\\') && dir@ == temp_dir_path(base@, sep, process_id),
    {
        let sep = main_separator();
        let mut path = base.to_owned();
        let len = base.unicode_len();
        if len > 0 && base.get_char(len - 1) != '/' && base.get_char(len - 1) != sep {
            proof {
                reveal_strlit("/");
                reveal_strlit("\\");
            }
            if sep == '/' {
                path.append("/");
            } else {
                path.append("\\");
            }
        }
        proof { reveal_strlit("web-browser-lsp-"); }
        path.append("web-browser-lsp-");
        let digits = u32_to_decimal(process_id);
        path.append(digits.as_str());
        assert(path@ =~= temp_dir_path(base@, sep, process_id));
        TempDir { path }
    }

    /// The directory's path.
    pub fn as_path(&self) -> (path: &str)
        ensures
            path@ == self@,
    {
        self.path.as_str()
    }
}

/// Two server processes never share a scratch directory: distinct process
/// ids give distinct paths under the same temporary directory, whichever
/// separators the paths were built with.
pub proof fn lemma_temp_dirs_distinct(base: Seq<char>, sep_a: char, sep_b: char, a: u32, b: u32)
    requires
        a != b,
        sep_a == '/' || sep_a == '\\',
        sep_b == '/' || sep_b == '\\',
    ensures
        temp_dir_path(base, sep_a, a) != temp_dir_path(base, sep_b, b),
{
    reveal_strlit("web-browser-lsp-");
    let name = "web-browser-lsp-"@;
    let da = decimal_of(a as nat);
    let db = decimal_of(b as nat);
    let pa = temp_dir_path(base, sep_a, a);
    let pb = temp_dir_path(base, sep_b, b);
    let ka = if base.len() == 0 || is_path_separator(base.last(), sep_a) { base } else { base.push(sep_a) };
    let kb = if base.len() == 0 || is_path_separator(base.last(), sep_b) { base } else { base.push(sep_b) };
    assert(pa =~= ka + name + da);
    assert(pb =~= kb + name + db);
    if pa == pb {
        if ka.len() == kb.len() {
            let n = (ka + name).len() as int;
            assert(ka =~= kb) by {
                assert forall|i: int| 0 <= i < ka.len() implies ka[i] == kb[i] by {
                    assert(pa[i] == ka[i]);
                    assert(pb[i] == kb[i]);
                }
            }
            assert(pa.subrange(n, pa.len() as int) =~= da);
            assert(pb.subrange(n, pb.len() as int) =~= db);
            crate::decimal::lemma_decimal_injective(a as nat, b as nat);
        } else {
            // One path has a separator right after `base` where the other
            // has the first letter of the directory name.
            let k = base.len() as int;
            if ka.len() < kb.len() {
                assert(pa[k] == name[0]);
                assert(pb[k] == sep_b);
            } else {
                assert(pb[k] == name[0]);
                assert(pa[k] == sep_a);
            }
        }
    }
}

} // verus!
