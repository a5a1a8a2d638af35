//! Language identification from a file's name: an exact-filename table takes
//! priority over a case-insensitive extension table, and everything else
//! falls back to `Language::Generic`, so every file is mapped to exactly one
//! language.

use vstd::prelude::*;

use crate::language::Language;
use crate::text::chars_of;
use crate::text::eq_lit;
use crate::text::eq_lower_lit;
use crate::text::lower_spec;

verus! {

/// The index of the last `'.'` in `s`, or `-1` when there is none.
pub open spec fn last_dot(s: Seq<char>) -> int
    decreases s.len(),
{
    if s.len() == 0 {
        -1
    } else if s.last() == '.' {
        s.len() - 1
    } else {
        last_dot(s.drop_last())
    }
}

/// The extension of a file name: what follows the last `'.'`, except that a
/// name with no dot, or only a leading dot (a hidden file), has none.
pub open spec fn extension_spec(name: Seq<char>) -> Option<Seq<char>> {
    let d = last_dot(name);
    if d <= 0 {
        None
    } else {
        Some(name.subrange(d + 1, name.len() as int))
    }
}

/// The language claimed by an already-lowercased extension; unclaimed
/// extensions fall back to `Language::Generic`.
pub open spec fn language_of_extension(e: Seq<char>) -> Language {
    if e == "c"@ || e == "h"@ || e == "cpp"@ || e == "hpp"@ {
        Language::C
    } else if e == "vert"@ || e == "frag"@ || e == "glsl"@ {
        Language::Shader
    } else if e == "rs"@ {
        Language::Rust
    } else if e == "py"@ {
        Language::Python
    } else if e == "js"@ {
        Language::Js
    } else if e == "json"@ {
        Language::Json
    } else if e == "toml"@ {
        Language::Toml
    } else if e == "go"@ {
        Language::Go
    } else if e == "csv"@ {
        Language::Csv
    } else if e == "yaml"@ || e == "yml"@ {
        Language::Yaml
    } else if e == "scss"@ || e == "css"@ {
        Language::Css
    } else if e == "html"@ {
        Language::Html
    } else if e == "vue"@ {
        Language::VueJs
    } else if e == "md"@ {
        Language::Markdown
    } else if e == "tex"@ || e == "bib"@ {
        Language::Tex
    } else if e == "sh"@ || e == "bash"@ || e == "zsh"@ || e == "fish"@ {
        Language::Shell
    } else if e == "txt"@ {
        Language::Txt
    } else if e == "rb"@ {
        Language::Ruby
    } else if e == "liquid"@ {
        Language::Liquid
    } else if e == "jpg"@ || e == "png"@ || e == "jpeg"@ || e == "gif"@ || e == "bmp"@ || e
        == "ttf"@ || e == "pdf"@ || e == "obj"@ || e == "mtl"@ || e == "woff"@ || e == "woff2"@
        || e == "o"@ || e == "bin"@ || e == "gltf"@ || e == "out"@ || e == "map"@ || e == "mp3"@ {
        Language::Asset
    } else if e == "cmake"@ {
        Language::CMake
    } else {
        Language::Generic
    }
}

/// The language of a file name: exact filename matches first, then the
/// case-insensitive extension table, then the generic fallback. Total: every
/// name is mapped to exactly one language.
pub open spec fn identify_spec(name: Seq<char>) -> Language {
    if name == "Dockerfile"@ {
        Language::Dockerfile
    } else if name == "CMakeLists.txt"@ {
        Language::CMake
    } else if name == "Makefile"@ {
        Language::Makefile
    } else if name == "LICENSE"@ {
        Language::Txt
    } else if name == "Cargo.lock"@ {
        Language::Txt
    } else {
        match extension_spec(name) {
            Some(e) => language_of_extension(lower_spec(e)),
            None => Language::Generic,
        }
    }
}

/// The index of the last `'.'` in `s`, when there is one.
fn find_last_dot(s: &Vec<char>) -> (r: Option<usize>)
    ensures
        match r {
            Some(i) => last_dot(s@) == i as int && i < s@.len(),
            None => last_dot(s@) == -1,
        },
{
    let n: usize = s.len();
    assert(s@.subrange(0, n as int) =~= s@);
    let mut i: usize = n;
    while i > 0
        invariant
            i <= n,
            n == s@.len(),
            last_dot(s@) == last_dot(s@.subrange(0, i as int)),
        decreases i,
    {
        if s[i - 1] == '.' {
            proof {
                let t = s@.subrange(0, i as int);
                assert(t.last() == s@[i - 1]);
            }
            return Some(i - 1);
        }
        proof {
            let t = s@.subrange(0, i as int);
            assert(t.last() == s@[i - 1]);
            assert(t.drop_last() =~= s@.subrange(0, i - 1));
        }
        i = i - 1;
    }
    assert(s@.subrange(0, 0).len() == 0);
    None
}

/// The extension of a file name, as its characters.
fn extension_chars(s: &Vec<char>) -> (r: Option<Vec<char>>)
    ensures
        match r {
            Some(e) => extension_spec(s@) == Some(e@),
            None => extension_spec(s@) is None,
        },
{
    match find_last_dot(s) {
        None => None,
        Some(d) => {
            if d == 0 {
                None
            } else {
                let n: usize = s.len();
                let mut e: Vec<char> = Vec::new();
                let mut j: usize = d + 1;
                while j < n
                    invariant
                        n == s@.len(),
                        d + 1 <= j <= n,
                        e@ == s@.subrange(d + 1, j as int),
                    decreases n - j,
                {
                    e.push(s[j]);
                    assert(e@ =~= s@.subrange(d + 1, j + 1 as int));
                    j = j + 1;
                }
                assert(e@ =~= s@.subrange(d + 1, n as int));
                Some(e)
            }
        },
    }
}

/// The language claimed by an extension, compared case-insensitively.
fn extension_language(ext: &Vec<char>) -> (language: Language)
    ensures
        language == language_of_extension(lower_spec(ext@)),
{
    if eq_lower_lit(ext, "c") || eq_lower_lit(ext, "h") || eq_lower_lit(ext, "cpp")
        || eq_lower_lit(ext, "hpp") {
        Language::C
    } else if eq_lower_lit(ext, "vert") || eq_lower_lit(ext, "frag") || eq_lower_lit(ext, "glsl") {
        Language::Shader
    } else if eq_lower_lit(ext, "rs") {
        Language::Rust
    } else if eq_lower_lit(ext, "py") {
        Language::Python
    } else if eq_lower_lit(ext, "js") {
        Language::Js
    } else if eq_lower_lit(ext, "json") {
        Language::Json
    } else if eq_lower_lit(ext, "toml") {
        Language::Toml
    } else if eq_lower_lit(ext, "go") {
        Language::Go
    } else if eq_lower_lit(ext, "csv") {
        Language::Csv
    } else if eq_lower_lit(ext, "yaml") || eq_lower_lit(ext, "yml") {
        Language::Yaml
    } else if eq_lower_lit(ext, "scss") || eq_lower_lit(ext, "css") {
        Language::Css
    } else if eq_lower_lit(ext, "html") {
        Language::Html
    } else if eq_lower_lit(ext, "vue") {
        Language::VueJs
    } else if eq_lower_lit(ext, "md") {
        Language::Markdown
    } else if eq_lower_lit(ext, "tex") || eq_lower_lit(ext, "bib") {
        Language::Tex
    } else if eq_lower_lit(ext, "sh") || eq_lower_lit(ext, "bash") || eq_lower_lit(ext, "zsh")
        || eq_lower_lit(ext, "fish") {
        Language::Shell
    } else if eq_lower_lit(ext, "txt") {
        Language::Txt
    } else if eq_lower_lit(ext, "rb") {
        Language::Ruby
    } else if eq_lower_lit(ext, "liquid") {
        Language::Liquid
    } else if eq_lower_lit(ext, "jpg") || eq_lower_lit(ext, "png") || eq_lower_lit(ext, "jpeg")
        || eq_lower_lit(ext, "gif") || eq_lower_lit(ext, "bmp") || eq_lower_lit(ext, "ttf")
        || eq_lower_lit(ext, "pdf") || eq_lower_lit(ext, "obj") || eq_lower_lit(ext, "mtl")
        || eq_lower_lit(ext, "woff") || eq_lower_lit(ext, "woff2") || eq_lower_lit(ext, "o")
        || eq_lower_lit(ext, "bin") || eq_lower_lit(ext, "gltf") || eq_lower_lit(ext, "out")
        || eq_lower_lit(ext, "map") || eq_lower_lit(ext, "mp3") {
        Language::Asset
    } else if eq_lower_lit(ext, "cmake") {
        Language::CMake
    } else {
        Language::Generic
    }
}

/// The language of one file, from its name alone (the last path component).
/// Every name gets exactly one language; unknown ones get
/// `Language::Generic`.
pub fn identify(file_name: &str) -> (language: Language)
    ensures
        language == identify_spec(file_name@),
{
    let cs = chars_of(file_name);
    if eq_lit(&cs, "Dockerfile") {
        return Language::Dockerfile;
    }
    if eq_lit(&cs, "CMakeLists.txt") {
        return Language::CMake;
    }
    if eq_lit(&cs, "Makefile") {
        return Language::Makefile;
    }
    if eq_lit(&cs, "LICENSE") {
        return Language::Txt;
    }
    if eq_lit(&cs, "Cargo.lock") {
        return Language::Txt;
    }
    match extension_chars(&cs) {
        Some(ext) => extension_language(&ext),
        None => Language::Generic,
    }
}

} // verus!
