//! Language identifiers for syntax highlighting, told from a file's name.

use crate::path::{extension_of, file_name, name_extension, path_file_name};
use crate::text::{lowercase, str_eq, to_lowercase};
use vstd::prelude::*;

verus! {

/// The language of a file that is known by its whole name, given in lower
/// case.
pub open spec fn language_of_name(name: Seq<char>) -> Option<Seq<char>> {
    if name == "makefile"@ || name == "gnumakefile"@ {
        Some("makefile"@)
    } else if name == "dockerfile"@ {
        Some("dockerfile"@)
    } else if name == ".gitignore"@ || name == ".dockerignore"@ {
        Some("ignore"@)
    } else if name == ".env"@ || name == ".env.local"@ || name == ".env.example"@ {
        Some("properties"@)
    } else {
        None
    }
}

/// The language that a file extension stands for, the extension given in
/// lower case and without its dot.
pub open spec fn language_of_extension(ext: Seq<char>) -> Option<Seq<char>> {
    if ext == "js"@ || ext == "mjs"@ || ext == "cjs"@ {
        Some("javascript"@)
    } else if ext == "ts"@ || ext == "mts"@ || ext == "cts"@ {
        Some("typescript"@)
    } else if ext == "tsx"@ {
        Some("tsx"@)
    } else if ext == "jsx"@ {
        Some("jsx"@)
    } else if ext == "html"@ || ext == "htm"@ {
        Some("html"@)
    } else if ext == "css"@ {
        Some("css"@)
    } else if ext == "scss"@ {
        Some("scss"@)
    } else if ext == "less"@ {
        Some("less"@)
    } else if ext == "json"@ {
        Some("json"@)
    } else if ext == "jsonc"@ {
        Some("jsonc"@)
    } else if ext == "xml"@ || ext == "svg"@ {
        Some("xml"@)
    } else if ext == "yaml"@ || ext == "yml"@ {
        Some("yaml"@)
    } else if ext == "toml"@ {
        Some("toml"@)
    } else if ext == "rs"@ {
        Some("rust"@)
    } else if ext == "go"@ {
        Some("go"@)
    } else if ext == "c"@ || ext == "h"@ {
        Some("c"@)
    } else if ext == "cpp"@ || ext == "cc"@ || ext == "cxx"@ || ext == "hpp"@ || ext == "hxx"@ {
        Some("cpp"@)
    } else if ext == "zig"@ {
        Some("zig"@)
    } else if ext == "py"@ {
        Some("python"@)
    } else if ext == "rb"@ {
        Some("ruby"@)
    } else if ext == "php"@ {
        Some("php"@)
    } else if ext == "lua"@ {
        Some("lua"@)
    } else if ext == "sh"@ || ext == "bash"@ || ext == "zsh"@ {
        Some("bash"@)
    } else if ext == "fish"@ {
        Some("fish"@)
    } else if ext == "ps1"@ || ext == "psm1"@ {
        Some("powershell"@)
    } else if ext == "java"@ {
        Some("java"@)
    } else if ext == "kt"@ || ext == "kts"@ {
        Some("kotlin"@)
    } else if ext == "scala"@ || ext == "sc"@ {
        Some("scala"@)
    } else if ext == "groovy"@ || ext == "gradle"@ {
        Some("groovy"@)
    } else if ext == "sql"@ {
        Some("sql"@)
    } else if ext == "md"@ || ext == "markdown"@ {
        Some("markdown"@)
    } else if ext == "dockerfile"@ {
        Some("dockerfile"@)
    } else if ext == "makefile"@ || ext == "mk"@ {
        Some("makefile"@)
    } else if ext == "graphql"@ || ext == "gql"@ {
        Some("graphql"@)
    } else if ext == "vue"@ {
        Some("vue"@)
    } else if ext == "svelte"@ {
        Some("svelte"@)
    } else if ext == "astro"@ {
        Some("astro"@)
    } else if ext == "swift"@ {
        Some("swift"@)
    } else if ext == "r"@ {
        Some("r"@)
    } else if ext == "dart"@ {
        Some("dart"@)
    } else if ext == "ex"@ || ext == "exs"@ {
        Some("elixir"@)
    } else if ext == "erl"@ || ext == "hrl"@ {
        Some("erlang"@)
    } else if ext == "hs"@ || ext == "lhs"@ {
        Some("haskell"@)
    } else if ext == "ml"@ || ext == "mli"@ {
        Some("ocaml"@)
    } else if ext == "clj"@ || ext == "cljs"@ || ext == "cljc"@ || ext == "edn"@ {
        Some("clojure"@)
    } else if ext == "lisp"@ || ext == "cl"@ || ext == "el"@ {
        Some("lisp"@)
    } else if ext == "nim"@ {
        Some("nim"@)
    } else if ext == "v"@ {
        Some("v"@)
    } else if ext == "tf"@ || ext == "tfvars"@ {
        Some("hcl"@)
    } else if ext == "nix"@ {
        Some("nix"@)
    } else if ext == "proto"@ {
        Some("protobuf"@)
    } else if ext == "prisma"@ {
        Some("prisma"@)
    } else if ext == "sol"@ {
        Some("solidity"@)
    } else {
        None
    }
}

/// The language of the file that `path` names: by its whole name where that
/// is a known one, else by its extension. Both are compared in lower case.
pub open spec fn language_of_path(path: Seq<char>) -> Option<Seq<char>> {
    match file_name(path) {
        None => None,
        Some(name) => match language_of_name(lowercase(name)) {
            Some(lang) => Some(lang),
            None => match extension_of(name) {
                None => None,
                Some(ext) => language_of_extension(lowercase(ext)),
            },
        },
    }
}

/// The language of a path depends on the name of its file alone: two paths
/// that name their file alike have the same language.
pub proof fn lemma_language_by_file_name(path: Seq<char>, other: Seq<char>)
    requires
        file_name(path) == file_name(other),
    ensures
        language_of_path(path) == language_of_path(other),
{
}

/// The language of a file known by its whole name. `name` is the file name
/// in lower case.
pub fn lang_for_file_name(name: &str) -> (lang: Option<String>)
    ensures
        lang.deep_view() == language_of_name(name@),
{
    if str_eq(name, "makefile") || str_eq(name, "gnumakefile") {
        Some("makefile".to_owned())
    } else if str_eq(name, "dockerfile") {
        Some("dockerfile".to_owned())
    } else if str_eq(name, ".gitignore") || str_eq(name, ".dockerignore") {
        Some("ignore".to_owned())
    } else if str_eq(name, ".env") || str_eq(name, ".env.local") || str_eq(name, ".env.example") {
        Some("properties".to_owned())
    } else {
        None
    }
}

/// The language that an extension stands for. `ext` is the extension in
/// lower case, without its dot.
pub fn lang_for_extension(ext: &str) -> (lang: Option<String>)
    ensures
        lang.deep_view() == language_of_extension(ext@),
{
    if str_eq(ext, "js") || str_eq(ext, "mjs") || str_eq(ext, "cjs") {
        Some("javascript".to_owned())
    } else if str_eq(ext, "ts") || str_eq(ext, "mts") || str_eq(ext, "cts") {
        Some("typescript".to_owned())
    } else if str_eq(ext, "tsx") {
        Some("tsx".to_owned())
    } else if str_eq(ext, "jsx") {
        Some("jsx".to_owned())
    } else if str_eq(ext, "html") || str_eq(ext, "htm") {
        Some("html".to_owned())
    } else if str_eq(ext, "css") {
        Some("css".to_owned())
    } else if str_eq(ext, "scss") {
        Some("scss".to_owned())
    } else if str_eq(ext, "less") {
        Some("less".to_owned())
    } else if str_eq(ext, "json") {
        Some("json".to_owned())
    } else if str_eq(ext, "jsonc") {
        Some("jsonc".to_owned())
    } else if str_eq(ext, "xml") || str_eq(ext, "svg") {
        Some("xml".to_owned())
    } else if str_eq(ext, "yaml") || str_eq(ext, "yml") {
        Some("yaml".to_owned())
    } else if str_eq(ext, "toml") {
        Some("toml".to_owned())
    } else if str_eq(ext, "rs") {
        Some("rust".to_owned())
    } else if str_eq(ext, "go") {
        Some("go".to_owned())
    } else if str_eq(ext, "c") || str_eq(ext, "h") {
        Some("c".to_owned())
    } else if str_eq(ext, "cpp") || str_eq(ext, "cc") || str_eq(ext, "cxx") || str_eq(ext, "hpp") || str_eq(ext, "hxx") {
        Some("cpp".to_owned())
    } else if str_eq(ext, "zig") {
        Some("zig".to_owned())
    } else if str_eq(ext, "py") {
        Some("python".to_owned())
    } else if str_eq(ext, "rb") {
        Some("ruby".to_owned())
    } else if str_eq(ext, "php") {
        Some("php".to_owned())
    } else if str_eq(ext, "lua") {
        Some("lua".to_owned())
    } else if str_eq(ext, "sh") || str_eq(ext, "bash") || str_eq(ext, "zsh") {
        Some("bash".to_owned())
    } else if str_eq(ext, "fish") {
        Some("fish".to_owned())
    } else if str_eq(ext, "ps1") || str_eq(ext, "psm1") {
        Some("powershell".to_owned())
    } else if str_eq(ext, "java") {
        Some("java".to_owned())
    } else if str_eq(ext, "kt") || str_eq(ext, "kts") {
        Some("kotlin".to_owned())
    } else if str_eq(ext, "scala") || str_eq(ext, "sc") {
        Some("scala".to_owned())
    } else if str_eq(ext, "groovy") || str_eq(ext, "gradle") {
        Some("groovy".to_owned())
    } else if str_eq(ext, "sql") {
        Some("sql".to_owned())
    } else if str_eq(ext, "md") || str_eq(ext, "markdown") {
        Some("markdown".to_owned())
    } else if str_eq(ext, "dockerfile") {
        Some("dockerfile".to_owned())
    } else if str_eq(ext, "makefile") || str_eq(ext, "mk") {
        Some("makefile".to_owned())
    } else if str_eq(ext, "graphql") || str_eq(ext, "gql") {
        Some("graphql".to_owned())
    } else if str_eq(ext, "vue") {
        Some("vue".to_owned())
    } else if str_eq(ext, "svelte") {
        Some("svelte".to_owned())
    } else if str_eq(ext, "astro") {
        Some("astro".to_owned())
    } else if str_eq(ext, "swift") {
        Some("swift".to_owned())
    } else if str_eq(ext, "r") {
        Some("r".to_owned())
    } else if str_eq(ext, "dart") {
        Some("dart".to_owned())
    } else if str_eq(ext, "ex") || str_eq(ext, "exs") {
        Some("elixir".to_owned())
    } else if str_eq(ext, "erl") || str_eq(ext, "hrl") {
        Some("erlang".to_owned())
    } else if str_eq(ext, "hs") || str_eq(ext, "lhs") {
        Some("haskell".to_owned())
    } else if str_eq(ext, "ml") || str_eq(ext, "mli") {
        Some("ocaml".to_owned())
    } else if str_eq(ext, "clj") || str_eq(ext, "cljs") || str_eq(ext, "cljc") || str_eq(ext, "edn") {
        Some("clojure".to_owned())
    } else if str_eq(ext, "lisp") || str_eq(ext, "cl") || str_eq(ext, "el") {
        Some("lisp".to_owned())
    } else if str_eq(ext, "nim") {
        Some("nim".to_owned())
    } else if str_eq(ext, "v") {
        Some("v".to_owned())
    } else if str_eq(ext, "tf") || str_eq(ext, "tfvars") {
        Some("hcl".to_owned())
    } else if str_eq(ext, "nix") {
        Some("nix".to_owned())
    } else if str_eq(ext, "proto") {
        Some("protobuf".to_owned())
    } else if str_eq(ext, "prisma") {
        Some("prisma".to_owned())
    } else if str_eq(ext, "sol") {
        Some("solidity".to_owned())
    } else {
        None
    }
}

/// The language identifier for the file that `path` names, if it has one.
pub fn extension_to_lang(path: &str) -> (lang: Option<String>)
    ensures
        lang.deep_view() == language_of_path(path@),
{
    let name = match path_file_name(path) {
        Some(name) => name,
        None => {
            return None;
        },
    };
    let lower_name = to_lowercase(name.as_str());
    let by_name = lang_for_file_name(lower_name.as_str());
    if by_name.is_some() {
        return by_name;
    }
    match name_extension(name.as_str()) {
        None => None,
        Some(ext) => {
            let lower_ext = to_lowercase(ext.as_str());
            lang_for_extension(lower_ext.as_str())
        },
    }
}

} // verus!
