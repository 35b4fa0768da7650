//! Loading of the standard prelude.

use crate::ast::Program;
use crate::text::{chars_at, chars_of, join, joined, text_of, texts};
use vstd::prelude::*;

verus! {

broadcast use vstd::string::group_string_axioms;

/// A parsed module with its source.
#[derive(Debug)]
pub struct ParsedModule {
    /// The module's name.
    pub name: String,
    /// The names of a nested module's path, outermost first.
    pub path_segments: Vec<String>,
    /// The source.
    pub source: String,
    /// The syntax tree.
    pub ast: Program,
}

/// The prelude's files, in the order of their dependencies. The file that exports the others comes last.
pub fn prelude_files() -> (files: Vec<&'static str>)
    ensures
        files@ == seq![
            "derives/debug.incn",
            "derives/display.incn",
            "derives/eq.incn",
            "derives/ord.incn",
            "derives/clone.incn",
            "derives/default.incn",
            "prelude.incn",
        ],
{
    let files: Vec<&'static str> = vec![
        "derives/debug.incn",
        "derives/display.incn",
        "derives/eq.incn",
        "derives/ord.incn",
        "derives/clone.incn",
        "derives/default.incn",
        "prelude.incn",
    ];
    proof {
        assert(files@ =~= seq![
            "derives/debug.incn",
            "derives/display.incn",
            "derives/eq.incn",
            "derives/ord.incn",
            "derives/clone.incn",
            "derives/default.incn",
            "prelude.incn",
        ]);
    }
    files
}

/// A path without the extension of source files at its end, however often it stands there.
pub open spec fn without_extension(path: Seq<char>) -> Seq<char>
    decreases path.len(),
{
    if path.len() >= 5 && path.subrange(path.len() - 5, path.len() as int) == ".incn"@ {
        without_extension(path.take(path.len() - 5))
    } else {
        path
    }
}

/// The place of the first slash at or behind a place; the text's length where there is none.
pub open spec fn slash(text: Seq<char>, from: int) -> int
    decreases text.len() - from,
{
    if from < 0 || from >= text.len() {
        text.len() as int
    } else if text[from] == '/' {
        from
    } else {
        slash(text, from + 1)
    }
}

/// The parts of a text between slashes, from a place on.
pub open spec fn parts_from(text: Seq<char>, from: int) -> Seq<Seq<char>>
    decreases text.len() - from,
    when 0 <= from <= text.len()
    via parts_shrink
{
    let end = slash(text, from);
    if end >= text.len() {
        seq![text.subrange(from, text.len() as int)]
    } else {
        seq![text.subrange(from, end)] + parts_from(text, end + 1)
    }
}

#[via_fn]
proof fn parts_shrink(text: Seq<char>, from: int) {
    lemma_slash(text, from);
}

proof fn lemma_slash(text: Seq<char>, from: int)
    requires
        0 <= from <= text.len(),
    ensures
        from <= slash(text, from) <= text.len(),
    decreases text.len() - from,
{
    if from < text.len() && text[from] != '/' {
        lemma_slash(text, from + 1);
    }
}

/// The names of a file's path, outermost directory first.
pub open spec fn segments_of(path: Seq<char>) -> Seq<Seq<char>> {
    parts_from(without_extension(path), 0)
}

/// The length of a path without the extension at its end.
fn stem_length(chars: &Vec<char>) -> (length: usize)
    ensures
        length <= chars@.len(),
        without_extension(chars@) == chars@.take(length as int),
{
    let extension: Vec<char> = chars_of(".incn");
    let mut length: usize = chars.len();
    proof {
        reveal_strlit(".incn");
        assert(extension@.len() == 5);
        assert(chars@.take(length as int) =~= chars@);
    }
    while length >= 5 && chars_at(chars, length - 5, &extension)
        invariant
            length <= chars@.len(),
            extension@ == ".incn"@,
            extension@.len() == 5,
            without_extension(chars@) == without_extension(chars@.take(length as int)),
        ensures
            length < 5 || chars@.subrange(length - 5, length as int) != ".incn"@,
        decreases length,
    {
        proof {
            let path = chars@.take(length as int);
            assert(path.subrange(path.len() - 5, path.len() as int) =~= chars@.subrange(length - 5, length as int));
            assert(path.take(path.len() - 5) =~= chars@.take(length - 5));
        }
        length -= 5;
    }
    proof {
        let path = chars@.take(length as int);
        if length >= 5 {
            assert(path.subrange(path.len() - 5, path.len() as int) =~= chars@.subrange(length - 5, length as int));
        }
    }
    length
}

/// The names of a file's path, outermost directory first.
pub fn module_segments(relative_path: &str) -> (segments: Vec<String>)
    ensures
        texts(segments@) == segments_of(relative_path@),
{
    let chars: Vec<char> = chars_of(relative_path);
    let length: usize = stem_length(&chars);
    let ghost stem = without_extension(relative_path@);
    let mut segments: Vec<String> = Vec::new();
    let mut start: usize = 0;
    proof {
        assert(texts(segments@) + parts_from(stem, 0) =~= parts_from(stem, 0));
    }
    loop
        invariant
            start <= length <= chars@.len(),
            stem == chars@.take(length as int),
            stem == without_extension(relative_path@),
            texts(segments@) + parts_from(stem, start as int) == parts_from(stem, 0),
        decreases length - start,
    {
        let ghost before = texts(segments@);
        let mut end: usize = start;
        while end < length && chars[end] != '/'
            invariant
                start <= end <= length <= chars@.len(),
                stem == chars@.take(length as int),
                slash(stem, start as int) == slash(stem, end as int),
            ensures
                start <= end <= length,
                slash(stem, start as int) == end,
            decreases length - end,
        {
            end += 1;
        }
        let part: String = text_of(&chars, start, end);
        segments.push(part);
        proof {
            assert(part@ =~= stem.subrange(start as int, end as int));
            assert(texts(segments@) =~= before + seq![part@]);
        }
        if end >= length {
            return segments;
        }
        proof {
            assert(texts(segments@) + parts_from(stem, end + 1) =~= before + (seq![part@] + parts_from(
                stem,
                end + 1,
            )));
        }
        start = end + 1;
    }
}

/// The module of a parsed prelude file. Its name joins the names of its path.
pub fn parse_prelude_file(relative_path: &str, source: String, ast: Program) -> (module: ParsedModule)
    ensures
        texts(module.path_segments@) == segments_of(relative_path@),
        module.name@ == joined(segments_of(relative_path@), "_"@),
        module.source == source,
        module.ast == ast,
{
    let path_segments: Vec<String> = module_segments(relative_path);
    let name: String = join(&path_segments, "_");
    ParsedModule { name, path_segments, source, ast }
}

/// The modules that are there, from one place on, behind those found so far.
pub open spec fn present(parsed: Seq<Option<ParsedModule>>, from: int, found: Seq<ParsedModule>) -> Seq<ParsedModule>
    decreases parsed.len() - from,
{
    if from < 0 || from >= parsed.len() {
        found
    } else {
        match parsed[from] {
            Some(module) => present(parsed, from + 1, found.push(module)),
            None => present(parsed, from + 1, found),
        }
    }
}

/// Loads the prelude from what its files gave, in their order. A file that is missing or does not parse is left out.
pub fn load_prelude(parsed: Vec<Option<ParsedModule>>) -> (modules: Vec<ParsedModule>)
    ensures
        modules@ == present(parsed@, 0, Seq::empty()),
{
    let ghost given = parsed@;
    let mut modules: Vec<ParsedModule> = Vec::new();
    for module in it: parsed
        invariant
            it.seq() == given,
            given == parsed@,
            present(given, 0, Seq::empty()) == present(given, it.index(), modules@),
    {
        match module {
            Some(module) => {
                modules.push(module);
            },
            None => {},
        }
    }
    modules
}

/// How many directories above the executable may hold the standard library.
pub const EXECUTABLE_DIRECTORIES: usize = 3;

/// A place where the standard library may stand.
#[derive(Debug, Clone, Copy, PartialEq, Eq, Structural)]
pub enum StdlibPlace {
    /// Under the working directory.
    WorkingDirectory,
    /// Under a directory above the executable: the executable's own, its parent, and so on.
    AboveExecutable(usize),
    /// Where the environment says.
    Configured,
}

/// The places where the standard library may stand, in the order in which they are tried, where so many directories
/// stand above the executable and the environment names a place or not.
pub open spec fn places(directories: nat, configured: bool) -> Seq<StdlibPlace> {
    let tried = if directories < EXECUTABLE_DIRECTORIES {
        directories
    } else {
        EXECUTABLE_DIRECTORIES as nat
    };
    seq![StdlibPlace::WorkingDirectory] + Seq::new(tried, |i: int| StdlibPlace::AboveExecutable(i as usize))
        + if configured {
        seq![StdlibPlace::Configured]
    } else {
        Seq::empty()
    }
}

/// Lists the places where the standard library may stand, in the order in which they are tried.
pub fn stdlib_places(directories: usize, configured: bool) -> (listed: Vec<StdlibPlace>)
    ensures
        listed@ == places(directories as nat, configured),
{
    let mut listed: Vec<StdlibPlace> = Vec::new();
    listed.push(StdlibPlace::WorkingDirectory);
    let mut i: usize = 0;
    while i < directories && i < EXECUTABLE_DIRECTORIES
        invariant
            i <= directories,
            i <= EXECUTABLE_DIRECTORIES,
            listed@ == seq![StdlibPlace::WorkingDirectory] + Seq::new(
                i as nat,
                |j: int| StdlibPlace::AboveExecutable(j as usize),
            ),
        decreases EXECUTABLE_DIRECTORIES - i,
    {
        listed.push(StdlibPlace::AboveExecutable(i));
        proof {
            assert(listed@ =~= seq![StdlibPlace::WorkingDirectory] + Seq::new(
                (i + 1) as nat,
                |j: int| StdlibPlace::AboveExecutable(j as usize),
            ));
        }
        i += 1;
    }
    if configured {
        listed.push(StdlibPlace::Configured);
    }
    proof {
        assert(listed@ =~= places(directories as nat, configured));
    }
    listed
}

/// What is known of a place where the standard library may stand.
#[derive(Debug, Clone, Copy, PartialEq, Eq, Structural)]
pub struct StdlibCandidate {
    /// Whether it is there.
    pub exists: bool,
    /// Whether it is a directory.
    pub is_dir: bool,
}

/// The first candidate from one on that is a directory.
pub open spec fn first_directory(candidates: Seq<StdlibCandidate>, from: int) -> Option<int>
    decreases candidates.len() - from,
{
    if from < 0 || from >= candidates.len() {
        None
    } else if candidates[from].exists && candidates[from].is_dir {
        Some(from)
    } else {
        first_directory(candidates, from + 1)
    }
}

/// Finds the standard library: the first candidate that is a directory.
pub fn find_stdlib_dir(candidates: &Vec<StdlibCandidate>) -> (found: Option<usize>)
    ensures
        first_directory(candidates@, 0) == match found {
            Some(at) => Some(at as int),
            None => None,
        },
        found matches Some(at) ==> at < candidates@.len(),
{
    let mut i: usize = 0;
    while i < candidates.len()
        invariant
            i <= candidates@.len(),
            first_directory(candidates@, 0) == first_directory(candidates@, i as int),
        decreases candidates@.len() - i,
    {
        if candidates[i].exists && candidates[i].is_dir {
            return Some(i);
        }
        i += 1;
    }
    None
}

} // verus!
