//! Pure helpers of the file browser: extension, hidden-file and text-file
//! classification, permission-string rendering, and the listing shapes.
//! The directory walking itself is I/O and lives with the caller.

use vstd::prelude::*;
use crate::types::string_is;

verus! {

/// A directory entry as shown by the browser.
#[derive(Debug, Clone)]
pub struct FileEntry {
    pub name: String,
    pub path: String,
    pub is_dir: bool,
    pub size: u64,
    pub modified_at: u64,
    pub file_type: Option<String>,
    pub is_hidden: bool,
    pub mode_str: Option<String>,
    pub mode: Option<u32>,
    pub mime_type: Option<String>,
    pub is_symlink: bool,
}

/// One directory listing.
#[derive(Debug, Clone)]
pub struct DirectoryListing {
    pub path: String,
    pub parent_path: Option<String>,
    pub entries: Vec<FileEntry>,
    pub error: Option<String>,
}

/// A file preview.
#[derive(Debug, Clone)]
pub struct FilePreview {
    pub path: String,
    pub content: Option<String>,
    pub is_binary: bool,
    pub size: u64,
    pub error: Option<String>,
}

/// Index of the last occurrence of `c`, or -1.
pub open spec fn last_index_of(s: Seq<char>, c: char) -> int
    decreases s.len(),
{
    if s.len() == 0 {
        -1
    } else if s.last() == c {
        s.len() - 1
    } else {
        last_index_of(s.drop_last(), c)
    }
}

/// `last_index_of` finds the rightmost occurrence exactly.
pub proof fn lemma_last_index_of(s: Seq<char>, c: char)
    ensures
        last_index_of(s, c) >= -1,
        last_index_of(s, c) < 0 ==> forall|j: int| 0 <= j < s.len() ==> s[j] != c,
        last_index_of(s, c) >= 0 ==> last_index_of(s, c) < s.len() && s[last_index_of(s, c)]
            == c,
        last_index_of(s, c) >= 0 ==> forall|j: int|
            last_index_of(s, c) < j < s.len() ==> s[j] != c,
    decreases s.len(),
{
    if s.len() == 0 {
    } else if s.last() == c {
    } else {
        lemma_last_index_of(s.drop_last(), c);
        assert(forall|j: int| 0 <= j < s.len() - 1 ==> s.drop_last()[j] == s[j]);
    }
}

/// An ASCII letter lowered; every other character unchanged.
pub open spec fn lower_char(c: char) -> char {
    if 'A' <= c && c <= 'Z' {
        ((c as u8) + 32) as char
    } else {
        c
    }
}

/// A string with its ASCII letters lowered.
pub open spec fn lower_ascii(s: Seq<char>) -> Seq<char> {
    s.map_values(|c: char| lower_char(c))
}

/// The extension of a path: the run after the last dot of the final path
/// component, absent when the component has no dot or only its leading one,
/// lowered.  Only ASCII paths are classified; any other path has none.
pub open spec fn extension_of(path: Seq<char>) -> Option<Seq<char>> {
    if !vstd::utf8::is_ascii_chars(path) {
        None
    } else {
        let name = path.skip(last_index_of(path, '/') + 1);
        let d = last_index_of(name, '.');
        if d > 0 {
            Some(lower_ascii(name.skip(d + 1)))
        } else {
            None
        }
    }
}

/// Locates the rightmost occurrence of an ASCII byte.
fn rfind_ascii(s: &str, b: u8) -> (r: Option<usize>)
    requires
        s.is_ascii(),
        b < 128,
    ensures
        match r {
            Some(k) => last_index_of(s@, b as char) == k as int && (k as int) < s@.len(),
            None => last_index_of(s@, b as char) < 0,
        },
{
    let n = s.unicode_len();
    let mut k: usize = n;
    while k > 0
        invariant
            k <= n,
            n == s@.len(),
            s.is_ascii(),
            b < 128,
            forall|j: int| k <= j < n ==> s@[j] != b as char,
        decreases k,
    {
        k = k - 1;
        let cb = s.get_ascii(k);
        if cb == b {
            proof {
                assert(s@[k as int] as u8 == b);
                assert(s@[k as int] <= '\u{7f}');
                assert((b as char) as u8 == b);
                assert(s@[k as int] == b as char);
                lemma_last_index_of(s@, b as char);
                let li = last_index_of(s@, b as char);
                if li < 0 {
                    assert(s@[k as int] != b as char);
                } else if li < k as int {
                    assert(s@[k as int] != b as char);
                } else if li > k as int {
                    assert(s@[li] != b as char);
                }
            }
            return Some(k);
        }
        proof {
            assert(s@[k as int] as u8 == cb);
            assert(s@[k as int] <= '\u{7f}');
            if s@[k as int] == b as char {
                assert(s@[k as int] as u8 == b);
            }
        }
    }
    proof {
        lemma_last_index_of(s@, b as char);
        if last_index_of(s@, b as char) >= 0 {
            assert(s@[last_index_of(s@, b as char)] == b as char);
        }
    }
    None
}

/// Lowers the ASCII letters of a string.
fn lower_ascii_exec(s: &str) -> (r: String)
    requires
        s.is_ascii(),
    ensures
        r@ == lower_ascii(s@),
{
    let n = s.unicode_len();
    let mut out = String::new();
    let mut k: usize = 0;
    proof {
        assert(out@ =~= lower_ascii(s@).take(0));
    }
    while k < n
        invariant
            k <= n,
            n == s@.len(),
            s.is_ascii(),
            out@ == lower_ascii(s@).take(k as int),
        decreases n - k,
    {
        let b = s.get_ascii(k);
        let lowered: u8 = if b >= 65 && b <= 90 {
            b + 32
        } else {
            b
        };
        let piece = char_string(lowered);
        out.append(piece.as_str());
        proof {
            assert(s@[k as int] as u8 == b);
            assert(s@[k as int] <= '\u{7f}');
            assert(lower_ascii(s@)[k as int] == lower_char(s@[k as int]));
            assert(lowered as char == lower_char(s@[k as int])) by {
                if 'A' <= s@[k as int] && s@[k as int] <= 'Z' {
                    assert(b >= 65 && b <= 90);
                } else {
                    assert(!(b >= 65 && b <= 90)) by {
                        if b >= 65 && b <= 90 {
                            assert(s@[k as int] == b as char);
                            assert('A' <= s@[k as int] && s@[k as int] <= 'Z');
                        }
                    }
                    assert(lowered as char == s@[k as int]) by {
                        assert(s@[k as int] == b as char);
                    }
                }
            }
            assert(out@ =~= lower_ascii(s@).take(k + 1));
        }
        k = k + 1;
    }
    proof {
        assert(lower_ascii(s@).take(n as int) =~= lower_ascii(s@));
    }
    out
}

/// Relies on char::to_string: one ASCII character renders as itself.
#[verifier::external_body]
fn char_string(b: u8) -> (r: String)
    requires
        b < 128,
    ensures
        r@ == seq![b as char],
{
    (b as char).to_string()
}

/// The lowered extension of a path, `None` when the final component has no
/// dot beyond a leading one.
pub fn get_file_extension(path: &str) -> (r: Option<String>)
    ensures
        match (&r, extension_of(path@)) {
            (Some(e), Some(m)) => e@ == m,
            (None, None) => true,
            _ => false,
        },
{
    if !path.is_ascii() {
        return None;
    }
    let n = path.unicode_len();
    let slash = rfind_ascii(path, 47);
    let start = match slash {
        Some(k) => k + 1,
        None => 0,
    };
    let name = path.substring_ascii(start, n);
    proof {
        assert(name@ =~= path@.skip(last_index_of(path@, '/') + 1)) by {
            assert((47u8 as char) == '/');
            match slash {
                Some(k) => {
                    assert(last_index_of(path@, '/') == k as int);
                },
                None => {
                    lemma_last_index_of(path@, '/');
                    assert(last_index_of(path@, '/') == -1);
                    assert(path@.skip(0) =~= path@);
                },
            }
        }
    }
    let m = name.unicode_len();
    let dot = rfind_ascii(name, 46);
    match dot {
        Some(d) if d > 0 => {
            proof {
                assert((46u8 as char) == '.');
                assert(last_index_of(name@, '.') == d as int);
            }
            let ext = name.substring_ascii(d + 1, m);
            proof {
                assert(ext@ =~= name@.skip(d + 1));
            }
            Some(lower_ascii_exec(ext))
        },
        _ => {
            proof {
                assert((46u8 as char) == '.');
                match dot {
                    Some(d) => {
                        assert(last_index_of(name@, '.') == d as int);
                    },
                    None => {
                        assert(last_index_of(name@, '.') < 0);
                    },
                }
            }
            None
        },
    }
}

/// A file is hidden exactly when its name starts with a dot.
pub fn is_hidden_file(name: &str) -> (r: bool)
    ensures
        r == (name@.len() > 0 && name@[0] == '.'),
{
    if name.is_empty() {
        return false;
    }
    let c = name.get_char(0);
    c == '.'
}

/// The permission string of a mode: a type character, then three r/w/x
/// triples.
pub open spec fn mode_string(mode: u32, is_dir: bool, is_symlink: bool) -> Seq<char> {
    (if is_symlink {
        "l"@
    } else if is_dir {
        "d"@
    } else {
        "-"@
    }) + (if mode & 0x100u32 != 0 {
        "r"@
    } else {
        "-"@
    }) + (if mode & 0x80u32 != 0 {
        "w"@
    } else {
        "-"@
    }) + (if mode & 0x40u32 != 0 {
        "x"@
    } else {
        "-"@
    }) + (if mode & 0x20u32 != 0 {
        "r"@
    } else {
        "-"@
    }) + (if mode & 0x10u32 != 0 {
        "w"@
    } else {
        "-"@
    }) + (if mode & 0x8u32 != 0 {
        "x"@
    } else {
        "-"@
    }) + (if mode & 0x4u32 != 0 {
        "r"@
    } else {
        "-"@
    }) + (if mode & 0x2u32 != 0 {
        "w"@
    } else {
        "-"@
    }) + (if mode & 0x1u32 != 0 {
        "x"@
    } else {
        "-"@
    })
}

/// Renders a Unix file mode as a permission string such as `-rw-r--r--`.
pub fn mode_to_string(mode: u32, is_dir: bool, is_symlink: bool) -> (r: String)
    ensures
        r@ == mode_string(mode, is_dir, is_symlink),
{
    let mut out = if is_symlink {
        String::from_str("l")
    } else if is_dir {
        String::from_str("d")
    } else {
        String::from_str("-")
    };
    out.append(if mode & 0x100 != 0 { "r" } else { "-" });
    out.append(if mode & 0x80 != 0 { "w" } else { "-" });
    out.append(if mode & 0x40 != 0 { "x" } else { "-" });
    out.append(if mode & 0x20 != 0 { "r" } else { "-" });
    out.append(if mode & 0x10 != 0 { "w" } else { "-" });
    out.append(if mode & 0x8 != 0 { "x" } else { "-" });
    out.append(if mode & 0x4 != 0 { "r" } else { "-" });
    out.append(if mode & 0x2 != 0 { "w" } else { "-" });
    out.append(if mode & 0x1 != 0 { "x" } else { "-" });
    out
}

/// The extensions previewed as text.
pub open spec fn is_text_ext(e: Seq<char>) -> bool {
    e == "txt"@ || e == "md"@ || e == "json"@ || e == "yaml"@ || e == "yml"@ || e == "toml"@
        || e == "xml"@ || e == "html"@ || e == "htm"@ || e == "css"@ || e == "js"@ || e
        == "ts"@ || e == "tsx"@ || e == "jsx"@ || e == "rs"@ || e == "py"@ || e == "go"@ || e
        == "java"@ || e == "c"@ || e == "cpp"@ || e == "h"@ || e == "hpp"@ || e == "sh"@ || e
        == "bash"@ || e == "zsh"@ || e == "fish"@ || e == "sql"@ || e == "graphql"@ || e
        == "vue"@ || e == "svelte"@ || e == "astro"@ || e == "log"@ || e == "env"@ || e
        == "gitignore"@ || e == "dockerignore"@ || e == "editorconfig"@ || e == "prettierrc"@
        || e == "eslintrc"@ || e == "babelrc"@ || e == "conf"@ || e == "cfg"@ || e == "ini"@
        || e == "properties"@
}

/// Whether a file is previewed as text, judged by its extension alone; a
/// file without one is not.
pub fn is_text_file(extension: Option<&str>) -> (r: bool)
    ensures
        r == (match extension {
            Some(e) => is_text_ext(e@),
            None => false,
        }),
{
    let e = match extension {
        Some(e) => e,
        None => {
            return false;
        },
    };
    let s = String::from_str(e);
    string_is(&s, "txt") || string_is(&s, "md") || string_is(&s, "json") || string_is(&s, "yaml")
        || string_is(&s, "yml") || string_is(&s, "toml") || string_is(&s, "xml") || string_is(
        &s,
        "html",
    ) || string_is(&s, "htm") || string_is(&s, "css") || string_is(&s, "js") || string_is(
        &s,
        "ts",
    ) || string_is(&s, "tsx") || string_is(&s, "jsx") || string_is(&s, "rs") || string_is(
        &s,
        "py",
    ) || string_is(&s, "go") || string_is(&s, "java") || string_is(&s, "c") || string_is(
        &s,
        "cpp",
    ) || string_is(&s, "h") || string_is(&s, "hpp") || string_is(&s, "sh") || string_is(
        &s,
        "bash",
    ) || string_is(&s, "zsh") || string_is(&s, "fish") || string_is(&s, "sql") || string_is(
        &s,
        "graphql",
    ) || string_is(&s, "vue") || string_is(&s, "svelte") || string_is(&s, "astro") || string_is(
        &s,
        "log",
    ) || string_is(&s, "env") || string_is(&s, "gitignore") || string_is(&s, "dockerignore")
        || string_is(&s, "editorconfig") || string_is(&s, "prettierrc") || string_is(
        &s,
        "eslintrc",
    ) || string_is(&s, "babelrc") || string_is(&s, "conf") || string_is(&s, "cfg") || string_is(
        &s,
        "ini",
    ) || string_is(&s, "properties")
}

} // verus!
