use vstd::prelude::*;
use crate::command::{LaunchRequest, launch_of, launch_request};
use crate::paths::{extension_of, path_extension};

verus! {

/// The lowercase form of a text, as `str::to_lowercase` gives it.
pub uninterp spec fn lower_of(s: Seq<char>) -> Seq<char>;

/// Relies on std's `str::to_lowercase`: the lowercase form of a text, which
/// depends on its characters alone.
#[verifier::external_body]
fn lowercase(s: &String) -> (r: String)
    ensures
        r@ == lower_of(s@),
{
    s.to_lowercase()
}

/// The command template that opens files of each known extension, where one
/// is set.
#[derive(Debug, Clone)]
pub struct FileOptions {
    pub txt: Option<String>,
    pub pdf: Option<String>,
    pub mp4: Option<String>,
    pub mp3: Option<String>,
    pub c: Option<String>,
    pub cpp: Option<String>,
    pub rs: Option<String>,
    pub png: Option<String>,
    pub jpg: Option<String>,
    pub svg: Option<String>,
    pub sh: Option<String>,
    pub toml: Option<String>,
    pub html: Option<String>,
    pub css: Option<String>,
    pub js: Option<String>,
    pub jsx: Option<String>,
    pub ts: Option<String>,
    pub tsx: Option<String>,
    pub py: Option<String>,
    pub md: Option<String>,
    pub gitignore: Option<String>,
    pub rb: Option<String>,
    pub java: Option<String>,
    pub kt: Option<String>,
    pub json: Option<String>,
    pub zig: Option<String>,
    pub odin: Option<String>,
}

impl FileOptions {
    /// Options with no command set for any extension.
    pub fn empty() -> (r: FileOptions)
        ensures
            forall|ext: Seq<char>| option_for(r, ext).is_none(),
    {
        FileOptions {
            txt: None,
            pdf: None,
            mp4: None,
            mp3: None,
            c: None,
            cpp: None,
            rs: None,
            png: None,
            jpg: None,
            svg: None,
            sh: None,
            toml: None,
            html: None,
            css: None,
            js: None,
            jsx: None,
            ts: None,
            tsx: None,
            py: None,
            md: None,
            gitignore: None,
            rb: None,
            java: None,
            kt: None,
            json: None,
            zig: None,
            odin: None,
        }
    }
}

/// The command template set for the extension `ext`, if any.
pub open spec fn option_for(options: FileOptions, ext: Seq<char>) -> Option<String> {
    if ext == "txt"@ {
        options.txt
    } else if ext == "pdf"@ {
        options.pdf
    } else if ext == "mp4"@ {
        options.mp4
    } else if ext == "mp3"@ {
        options.mp3
    } else if ext == "c"@ {
        options.c
    } else if ext == "cpp"@ {
        options.cpp
    } else if ext == "rs"@ {
        options.rs
    } else if ext == "png"@ {
        options.png
    } else if ext == "jpg"@ {
        options.jpg
    } else if ext == "svg"@ {
        options.svg
    } else if ext == "sh"@ {
        options.sh
    } else if ext == "toml"@ {
        options.toml
    } else if ext == "html"@ {
        options.html
    } else if ext == "css"@ {
        options.css
    } else if ext == "js"@ {
        options.js
    } else if ext == "jsx"@ {
        options.jsx
    } else if ext == "ts"@ {
        options.ts
    } else if ext == "tsx"@ {
        options.tsx
    } else if ext == "py"@ {
        options.py
    } else if ext == "md"@ {
        options.md
    } else if ext == "gitignore"@ {
        options.gitignore
    } else if ext == "rb"@ {
        options.rb
    } else if ext == "java"@ {
        options.java
    } else if ext == "kt"@ {
        options.kt
    } else if ext == "json"@ {
        options.json
    } else if ext == "zig"@ {
        options.zig
    } else if ext == "odin"@ {
        options.odin
    } else {
        None
    }
}

/// The command template set for the extension `ext`, if any.
pub fn command_for<'a>(options: &'a FileOptions, ext: &String) -> (r: &'a Option<String>)
    ensures
        *r == option_for(*options, ext@),
{
    let r = if *ext == String::from_str("txt") {
        &options.txt
    } else if *ext == String::from_str("pdf") {
        &options.pdf
    } else if *ext == String::from_str("mp4") {
        &options.mp4
    } else if *ext == String::from_str("mp3") {
        &options.mp3
    } else if *ext == String::from_str("c") {
        &options.c
    } else if *ext == String::from_str("cpp") {
        &options.cpp
    } else if *ext == String::from_str("rs") {
        &options.rs
    } else if *ext == String::from_str("png") {
        &options.png
    } else if *ext == String::from_str("jpg") {
        &options.jpg
    } else if *ext == String::from_str("svg") {
        &options.svg
    } else if *ext == String::from_str("sh") {
        &options.sh
    } else if *ext == String::from_str("toml") {
        &options.toml
    } else if *ext == String::from_str("html") {
        &options.html
    } else if *ext == String::from_str("css") {
        &options.css
    } else if *ext == String::from_str("js") {
        &options.js
    } else if *ext == String::from_str("jsx") {
        &options.jsx
    } else if *ext == String::from_str("ts") {
        &options.ts
    } else if *ext == String::from_str("tsx") {
        &options.tsx
    } else if *ext == String::from_str("py") {
        &options.py
    } else if *ext == String::from_str("md") {
        &options.md
    } else if *ext == String::from_str("gitignore") {
        &options.gitignore
    } else if *ext == String::from_str("rb") {
        &options.rb
    } else if *ext == String::from_str("java") {
        &options.java
    } else if *ext == String::from_str("kt") {
        &options.kt
    } else if *ext == String::from_str("json") {
        &options.json
    } else if *ext == String::from_str("zig") {
        &options.zig
    } else if *ext == String::from_str("odin") {
        &options.odin
    } else {
        &None
    };
    r
}

/// What opening a file whose extension is `ext` starts: the command set for
/// that extension, with the file as its last argument; nothing where no
/// command is set.
pub fn launch_for_extension(ext: &String, options: &FileOptions, file: &String) -> (r: Option<LaunchRequest>)
    ensures
        option_for(*options, ext@).is_none() ==> r.is_none(),
        option_for(*options, ext@).is_some() ==> r.is_some()
            && launch_of(option_for(*options, ext@)->Some_0@, file@, r->Some_0),
{
    match command_for(options, ext) {
        Some(cmd) => Some(launch_request(cmd, file)),
        None => None,
    }
}

/// What opening `file` starts: the command set for its extension, lowercased,
/// with the file as its last argument; nothing for a file without an
/// extension or without a command for it.
pub fn handle_file_open(file: &String, options: &FileOptions) -> (r: Option<LaunchRequest>)
    ensures
        path_extension(file@).is_none() ==> r.is_none(),
        path_extension(file@).is_some() && option_for(*options, lower_of(path_extension(file@)->Some_0)).is_none()
            ==> r.is_none(),
        path_extension(file@).is_some() && option_for(*options, lower_of(path_extension(file@)->Some_0)).is_some()
            ==> r.is_some() && launch_of(option_for(*options, lower_of(path_extension(file@)->Some_0))->Some_0@, file@, r->Some_0),
{
    match extension_of(file) {
        Some(ext) => launch_for_extension(&lowercase(&ext), options, file),
        None => None,
    }
}

} // verus!
