//! What holds of generated projects as a whole.

use crate::order::all_inserted;
use crate::project::{
    covered, crate_line, declares_crate, dependency_lines, directories, feature_lines, feature_names, first_place,
    flat_files, flat_names, known_version, law_crates_are_declared_once, line_end, lines_name_their_crates, lines_with,
    manifest, module_lines, names_with, nested_file, nested_files, path_of, requirement_text, with_modules, ModuleCode,
    ProjectGenerator,
};
use crate::text::{begins_with, has_text, stands_at, texts};
use vstd::prelude::*;

verus! {

broadcast use vstd::string::group_string_axioms;

/// Whether lines declare crates, one each, and none twice.
pub open spec fn declare(lines: Seq<Seq<char>>, names: Seq<Seq<char>>) -> bool {
    &&& lines.len() == names.len()
    &&& names.no_duplicates()
    &&& forall|i: int| 0 <= i < lines.len() ==> begins_with(#[trigger] lines[i], names[i] + " = "@)
}

/// Whether a program imports a crate.
pub open spec fn imports(g: ProjectGenerator, name: Seq<char>) -> bool {
    exists|k: int| 0 <= k < g.rust_crate_deps.entries@.len() && (#[trigger] g.rust_crate_deps.entries@[k]).0@ == name
}

/// The names of the lines from one import on are those before them, and the imports that no feature covers.
proof fn lemma_names(g: ProjectGenerator, names: Seq<Seq<char>>, from: int, name: Seq<char>)
    requires
        0 <= from,
    ensures
        names_with(g, names, from).contains(name) <==> names.contains(name) || (!covered(
            g.needs_serde,
            g.needs_tokio,
            g.needs_axum,
            name,
        ) && exists|k: int|
            from <= k < g.rust_crate_deps.entries@.len() && (#[trigger] g.rust_crate_deps.entries@[k]).0@ == name),
    decreases g.rust_crate_deps.entries@.len() - from,
{
    let entries = g.rust_crate_deps.entries@;
    if from < entries.len() {
        let next = entries[from].0@;
        if covered(g.needs_serde, g.needs_tokio, g.needs_axum, next) {
            lemma_names(g, names, from + 1, name);
        } else {
            lemma_names(g, names.push(next), from + 1, name);
            assert(names.push(next)[names.len() as int] == next);
            if names.contains(name) {
                let i = choose|i: int| 0 <= i < names.len() && names[i] == name;
                assert(names.push(next)[i] == name);
            }
        }
    }
}

/// A line that is there stays, and the line of an import that no feature covers comes.
proof fn lemma_lines(g: ProjectGenerator, lines: Seq<Seq<char>>, from: int, at: int)
    requires
        0 <= from,
    ensures
        forall|line: Seq<char>| lines.contains(line) ==> #[trigger] lines_with(g, lines, from).contains(line),
        from <= at < g.rust_crate_deps.entries@.len() && !covered(
            g.needs_serde,
            g.needs_tokio,
            g.needs_axum,
            g.rust_crate_deps.entries@[at].0@,
        ) ==> lines_with(g, lines, from).contains(
            crate_line(g.rust_crate_deps.entries@[at].0@, requirement_text(g.rust_crate_deps.entries@[at].1)),
        ),
    decreases g.rust_crate_deps.entries@.len() - from,
{
    let entries = g.rust_crate_deps.entries@;
    if from < entries.len() {
        let next = entries[from].0@;
        if covered(g.needs_serde, g.needs_tokio, g.needs_axum, next) {
            lemma_lines(g, lines, from + 1, at);
            assert(lines_with(g, lines, from) == lines_with(g, lines, from + 1));
            assert forall|kept: Seq<char>| lines.contains(kept) implies #[trigger] lines_with(
                g,
                lines,
                from,
            ).contains(kept) by {
                assert(lines_with(g, lines, from + 1).contains(kept));
            }
        } else {
            let line = crate_line(next, requirement_text(entries[from].1));
            let more = lines.push(line);
            lemma_lines(g, more, from + 1, at);
            assert(more[lines.len() as int] == line);
            assert(more.contains(line));
            assert(lines_with(g, more, from + 1).contains(line));
            assert forall|kept: Seq<char>| lines.contains(kept) implies #[trigger] lines_with(
                g,
                lines,
                from,
            ).contains(kept) by {
                let i = choose|i: int| 0 <= i < lines.len() && lines[i] == kept;
                assert(more[i] == kept);
                assert(more.contains(kept));
                assert(lines_with(g, more, from + 1).contains(kept));
            }
        }
    } else {
        assert(lines_with(g, lines, from) == lines);
    }
}

/// A project depends on exactly the crates that it needs: on those that its program imports, on `serde` and
/// `serde_json` where it serializes, on `tokio` where it is asynchronous, and on `axum` and `tokio` where it serves the
/// web. Each has one line, and no line declares anything else.
pub proof fn law_projects_depend_on_what_they_need(g: ProjectGenerator)
    requires
        g.well_formed(),
    ensures
        exists|names: Seq<Seq<char>>| #[trigger]
            declare(dependency_lines(g), names) && forall|name: Seq<char>| #[trigger]
                names.contains(name) <==> imports(g, name) || (g.needs_serde && (name == "serde"@ || name
                    == "serde_json"@)) || (g.needs_tokio && name == "tokio"@) || (g.needs_axum && (name == "axum"@
                    || name == "tokio"@)),
{
    let features = feature_names(g.needs_serde, g.needs_tokio, g.needs_axum);
    let names = names_with(g, features, 0);
    let lines = dependency_lines(g);
    law_crates_are_declared_once(g);
    reveal_strlit(" = ");
    reveal_strlit(" = \"*\"");
    assert forall|i: int| 0 <= i < lines.len() implies begins_with(#[trigger] lines[i], names[i] + " = "@) by {
        assert(declares_crate(lines[i], names[i]));
        let requirement = choose|requirement: Option<Seq<char>>|
            lines[i] == #[trigger] crate_line(names[i], requirement);
        let head = names[i] + " = "@;
        assert(lines[i].subrange(0, head.len() as int) =~= head);
    }
    assert(declare(lines, names));
    assert forall|name: Seq<char>| #[trigger]
        names.contains(name) <==> imports(g, name) || (g.needs_serde && (name == "serde"@ || name == "serde_json"@))
            || (g.needs_tokio && name == "tokio"@) || (g.needs_axum && (name == "axum"@ || name == "tokio"@)) by {
        lemma_names(g, features, 0, name);
        if g.needs_serde {
            assert(features[0] == "serde"@ && features[1] == "serde_json"@);
        }
        if g.needs_axum {
            let at = features.len() - 2;
            assert(features[at] == "axum"@ && features[at + 1] == "tokio"@);
        } else if g.needs_tokio {
            assert(features[features.len() - 1] == "tokio"@);
        }
    }
}

/// An imported crate that no feature brings is declared with the version that was asked for, or with any version where
/// none was.
pub proof fn law_imports_keep_their_versions(g: ProjectGenerator, at: int)
    requires
        0 <= at < g.rust_crate_deps.entries@.len(),
        !(g.needs_serde && (g.rust_crate_deps.entries@[at].0@ == "serde"@ || g.rust_crate_deps.entries@[at].0@
            == "serde_json"@)),
        !((g.needs_tokio || g.needs_axum) && g.rust_crate_deps.entries@[at].0@ == "tokio"@),
        !(g.needs_axum && g.rust_crate_deps.entries@[at].0@ == "axum"@),
    ensures
        g.rust_crate_deps.entries@[at].1 matches Some(version) ==> dependency_lines(g).contains(
            g.rust_crate_deps.entries@[at].0@ + " = "@ + version@,
        ),
        g.rust_crate_deps.entries@[at].1 is None ==> dependency_lines(g).contains(
            g.rust_crate_deps.entries@[at].0@ + " = \"*\""@,
        ),
{
    lemma_lines(g, feature_lines(g.needs_serde, g.needs_tokio, g.needs_axum), 0, at);
}

/// Whether lines have one for a crate that asks for a feature of it.
pub open spec fn asks_for(lines: Seq<Seq<char>>, name: Seq<char>, feature: Seq<char>) -> bool {
    exists|i: int|
        0 <= i < lines.len() && begins_with(#[trigger] lines[i], name + " = "@) && has_text(
            lines[i],
            "\""@ + feature + "\""@,
        )
}

/// What the features bring is usable for what it is brought for: `serde` has its derives, and `tokio` its runtime and
/// macros, and the network where the project serves the web.
pub proof fn law_features_are_usable(g: ProjectGenerator)
    ensures
        g.needs_serde ==> asks_for(dependency_lines(g), "serde"@, "derive"@),
        g.needs_tokio || g.needs_axum ==> asks_for(dependency_lines(g), "tokio"@, "rt-multi-thread"@) && asks_for(
            dependency_lines(g),
            "tokio"@,
            "macros"@,
        ),
        g.needs_axum ==> asks_for(dependency_lines(g), "tokio"@, "net"@),
{
    let features = feature_lines(g.needs_serde, g.needs_tokio, g.needs_axum);
    let lines = dependency_lines(g);
    lines_name_their_crates(g, features, features, 0);
    reveal_strlit("\"");
    reveal_strlit(" = ");
    reveal_strlit("serde");
    reveal_strlit("derive");
    reveal_strlit("tokio");
    reveal_strlit("rt-multi-thread");
    reveal_strlit("macros");
    reveal_strlit("net");
    reveal_strlit("serde = { version = \"1.0\", features = [\"derive\"] }");
    reveal_strlit(
        "tokio = { version = \"1\", features = [\"rt-multi-thread\", \"macros\", \"time\", \"sync\", \"net\"] }",
    );
    reveal_strlit("tokio = { version = \"1\", features = [\"rt-multi-thread\", \"macros\", \"time\", \"sync\"] }");
    if g.needs_serde {
        let line = lines[0];
        assert(line == features[0]);
        let (head, feature) = ("serde"@ + " = "@, "\""@ + "derive"@ + "\""@);
        assert(line.subrange(0, head.len() as int) =~= head);
        assert(line.subrange(39, 47) =~= feature);
        assert(stands_at(line, 39, feature));
    }
    if g.needs_tokio || g.needs_axum {
        let at = features.len() - 1;
        let line = lines[at];
        assert(line == features[at]);
        let head = "tokio"@ + " = "@;
        assert(line.subrange(0, head.len() as int) =~= head);
        let (runtime, macros) = ("\""@ + "rt-multi-thread"@ + "\""@, "\""@ + "macros"@ + "\""@);
        assert(line.subrange(37, 54) =~= runtime);
        assert(stands_at(line, 37, runtime));
        assert(line.subrange(56, 64) =~= macros);
        assert(stands_at(line, 56, macros));
        if g.needs_axum {
            let net = "\""@ + "net"@ + "\""@;
            assert(line.subrange(82, 87) =~= net);
            assert(stands_at(line, 82, net));
        }
    }
}

/// The crates that are known to work are asked for in these versions and with these features, and no other crate is
/// given a version.
pub proof fn law_known_crates_have_their_versions(name: Seq<char>)
    ensures
        name == "serde"@ ==> known_version(name) == Some("{ version = \"1.0\", features = [\"derive\"] }"@),
        name == "serde_json"@ || name == "regex"@ || name == "anyhow"@ || name == "thiserror"@ || name == "bytes"@ ==> known_version(name) == Some("\"1.0\""@),
        name == "tokio"@ ==> known_version(name) == Some("{ version = \"1\", features = [\"rt-multi-thread\", \"macros\", \"time\", \"sync\"] }"@),
        name == "time"@ ==> known_version(name) == Some("{ version = \"0.3\", features = [\"formatting\", \"macros\"] }"@),
        name == "chrono"@ ==> known_version(name) == Some("{ version = \"0.4\", features = [\"serde\"] }"@),
        name == "reqwest"@ ==> known_version(name) == Some("{ version = \"0.11\", features = [\"json\"] }"@),
        name == "uuid"@ ==> known_version(name) == Some("{ version = \"1.0\", features = [\"v4\", \"serde\"] }"@),
        name == "rand"@ ==> known_version(name) == Some("\"0.8\""@),
        name == "tracing"@ ==> known_version(name) == Some("\"0.1\""@),
        name == "clap"@ ==> known_version(name) == Some("{ version = \"4.0\", features = [\"derive\"] }"@),
        name == "log"@ ==> known_version(name) == Some("\"0.4\""@),
        name == "env_logger"@ ==> known_version(name) == Some("\"0.10\""@),
        name == "sqlx"@ ==> known_version(name) == Some("{ version = \"0.7\", features = [\"runtime-tokio-native-tls\", \"postgres\"] }"@),
        name == "futures"@ ==> known_version(name) == Some("\"0.3\""@),
        name == "itertools"@ ==> known_version(name) == Some("\"0.12\""@),
        known_version(name) is Some ==> name == "serde"@ || name == "serde_json"@ || name == "tokio"@
            || name == "time"@ || name == "chrono"@ || name == "reqwest"@ || name == "uuid"@ || name == "rand"@
            || name == "regex"@ || name == "anyhow"@ || name == "thiserror"@ || name == "tracing"@
            || name == "clap"@ || name == "log"@ || name == "env_logger"@ || name == "sqlx"@
            || name == "futures"@ || name == "bytes"@ || name == "itertools"@,
{
    reveal_strlit("serde");
    assert("serde"@.len() == 5);
    reveal_strlit("serde_json");
    assert("serde_json"@.len() == 10);
    reveal_strlit("tokio");
    assert("tokio"@.len() == 5);
    reveal_strlit("time");
    assert("time"@.len() == 4);
    reveal_strlit("chrono");
    assert("chrono"@.len() == 6);
    reveal_strlit("reqwest");
    assert("reqwest"@.len() == 7);
    reveal_strlit("uuid");
    assert("uuid"@.len() == 4);
    reveal_strlit("rand");
    assert("rand"@.len() == 4);
    reveal_strlit("regex");
    assert("regex"@.len() == 5);
    reveal_strlit("anyhow");
    assert("anyhow"@.len() == 6);
    reveal_strlit("thiserror");
    assert("thiserror"@.len() == 9);
    reveal_strlit("tracing");
    assert("tracing"@.len() == 7);
    reveal_strlit("clap");
    assert("clap"@.len() == 4);
    reveal_strlit("log");
    assert("log"@.len() == 3);
    reveal_strlit("env_logger");
    assert("env_logger"@.len() == 10);
    reveal_strlit("sqlx");
    assert("sqlx"@.len() == 4);
    reveal_strlit("futures");
    assert("futures"@.len() == 7);
    reveal_strlit("bytes");
    assert("bytes"@.len() == 5);
    reveal_strlit("itertools");
    assert("itertools"@.len() == 9);
    assert("serde"@[0] != "tokio"@[0]);
    assert("serde"@[0] != "regex"@[0]);
    assert("serde"@[0] != "bytes"@[0]);
    assert("serde_json"@[0] != "env_logger"@[0]);
    assert("tokio"@[0] != "regex"@[0]);
    assert("tokio"@[0] != "bytes"@[0]);
    assert("time"@[0] != "uuid"@[0]);
    assert("time"@[0] != "rand"@[0]);
    assert("time"@[0] != "clap"@[0]);
    assert("time"@[0] != "sqlx"@[0]);
    assert("chrono"@[0] != "anyhow"@[0]);
    assert("reqwest"@[0] != "tracing"@[0]);
    assert("reqwest"@[0] != "futures"@[0]);
    assert("uuid"@[0] != "rand"@[0]);
    assert("uuid"@[0] != "clap"@[0]);
    assert("uuid"@[0] != "sqlx"@[0]);
    assert("rand"@[0] != "clap"@[0]);
    assert("rand"@[0] != "sqlx"@[0]);
    assert("regex"@[0] != "bytes"@[0]);
    assert("thiserror"@[0] != "itertools"@[0]);
    assert("tracing"@[0] != "futures"@[0]);
    assert("clap"@[0] != "sqlx"@[0]);
}

/// A crate that a feature brings is asked for as it is where a program imports it by name: serialization in both its
/// crates, and the runtime where nothing serves the web.
pub proof fn law_features_ask_as_imports_do(name: Seq<char>)
    requires
        name == "serde"@ || name == "serde_json"@ || name == "tokio"@,
    ensures
        feature_lines(true, true, false).contains(crate_line(name, known_version(name))),
{
    let lines = feature_lines(true, true, false);
    reveal_strlit(" = ");
    reveal_strlit("serde");
    reveal_strlit("serde_json");
    reveal_strlit("tokio");
    reveal_strlit("{ version = \"1.0\", features = [\"derive\"] }");
    reveal_strlit("\"1.0\"");
    reveal_strlit("{ version = \"1\", features = [\"rt-multi-thread\", \"macros\", \"time\", \"sync\"] }");
    reveal_strlit("serde = { version = \"1.0\", features = [\"derive\"] }");
    reveal_strlit("serde_json = \"1.0\"");
    reveal_strlit("tokio = { version = \"1\", features = [\"rt-multi-thread\", \"macros\", \"time\", \"sync\"] }");
    law_known_crates_have_their_versions("serde"@);
    law_known_crates_have_their_versions("serde_json"@);
    assert(crate_line("serde"@, known_version("serde"@)) =~= lines[0]);
    assert(crate_line("serde_json"@, known_version("serde_json"@)) =~= lines[1]);
    law_known_crates_have_their_versions("tokio"@);
    assert(crate_line("tokio"@, known_version("tokio"@)) =~= lines[2]);
}

// ---------------------------------------------------------------------------
// Files
// ---------------------------------------------------------------------------

/// A project has its manifest at its root, its main file below its sources, and every module's code in a file of the
/// module's name: directly below the sources, or in the directories of its path.
pub proof fn law_code_stands_in_its_file(
    g: ProjectGenerator,
    code: Seq<char>,
    flat: Seq<(String, String)>,
    nested: Seq<ModuleCode>,
    at: int,
)
    ensures
        flat_files(g, code, flat)[0].0 == seq!["Cargo.toml"@] && nested_files(g, code, nested)[0].0 == seq!["Cargo.toml"@],
        flat_files(g, code, flat)[0].1 == manifest(g) && nested_files(g, code, nested)[0].1 == manifest(g),
        flat_files(g, code, flat).last().0 == seq![
            "src"@,
            if g.is_binary {
                "main.rs"@
            } else {
                "lib.rs"@
            },
        ],
        nested_files(g, code, nested).last().0 == flat_files(g, code, flat).last().0,
        flat.len() == 0 ==> flat_files(g, code, flat).last().1 == code,
        0 <= at < flat.len() ==> flat_files(g, code, flat).contains((seq!["src"@, flat[at].0@ + ".rs"@], flat[at].1@)),
        0 <= at < nested.len() && nested[at].path@.len() > 0 ==> nested_files(g, code, nested).contains(
            (
                seq!["src"@] + texts(nested[at].path@).drop_last() + seq![nested[at].path@.last()@ + ".rs"@],
                nested[at].code@,
            ),
        ),
{
    if 0 <= at < flat.len() {
        assert(flat_files(g, code, flat)[1 + at] == (seq!["src"@, flat[at].0@ + ".rs"@], flat[at].1@));
    }
    if 0 <= at < nested.len() && nested[at].path@.len() > 0 {
        let dirs = directories(nested, 0, 1, Seq::empty());
        let file = nested_files(g, code, nested)[1 + dirs.len() + at];
        assert(file == nested_file(nested[at]));
        assert(path_of(nested[at]).last() == nested[at].path@.last()@);
        assert(nested_files(g, code, nested).contains(file));
    }
    assert(all_inserted(Seq::empty(), flat_names(Seq::<(String, String)>::empty()), 0) =~= Seq::<Seq<char>>::empty());
    if flat.len() == 0 {
        assert(flat =~= Seq::<(String, String)>::empty());
    }
}

/// Modules are declared in one block of lines, one each and in order, and the code around the block is kept as it was:
/// the block stands behind the line of the crate's allow attribute, where there is one, and else in front of everything.
pub proof fn law_module_blocks_keep_the_code(code: Seq<char>, names: Seq<Seq<char>>)
    requires
        names.len() > 0,
    ensures
        exists|cut: int|
            0 <= cut <= code.len() && with_modules(code, names) == #[trigger] code.take(cut) + module_lines(names)
                + "\n"@ + code.skip(cut) && (cut > 0 ==> has_text(code.take(cut), "#![allow("@)) && (cut == 0 ==> !has_text(
                code,
                "#![allow("@,
            )),
        module_lines(names) == module_lines(names.drop_last()) + "mod "@ + names.last() + ";\n"@,
{
    reveal_strlit("#![allow(");
    let needle = "#![allow("@;
    match first_place(code, needle, 0) {
        Some(at) => {
            first_is_there(code, needle, 0);
            attribute_line(code, needle, at, at);
            let cut = line_end(code, at);
            assert(code.take(cut).subrange(at, at + needle.len()) =~= code.subrange(at, at + needle.len()));
            assert(stands_at(code.take(cut), at, needle));
            assert(with_modules(code, names) == code.take(cut) + module_lines(names) + "\n"@ + code.skip(cut));
        },
        None => {
            first_is_there(code, needle, 0);
            assert(code.take(0) + module_lines(names) + "\n"@ + code.skip(0) =~= module_lines(names) + "\n"@ + code);
        },
    }
}

proof fn first_is_there(text: Seq<char>, needle: Seq<char>, from: int)
    requires
        0 <= from,
    ensures
        match first_place(text, needle, from) {
            Some(at) => from <= at <= text.len() && stands_at(text, at, needle),
            None => forall|i: int| from <= i <= text.len() ==> !#[trigger] stands_at(text, i, needle),
        },
    decreases text.len() + 1 - from,
{
    if from <= text.len() && !stands_at(text, from, needle) {
        first_is_there(text, needle, from + 1);
    }
}

proof fn attribute_line(text: Seq<char>, needle: Seq<char>, at: int, from: int)
    requires
        needle.len() == 9,
        needle == "#![allow("@,
        0 <= at <= from <= at + 9,
        stands_at(text, at, needle),
    ensures
        at + 9 <= line_end(text, from) <= text.len(),
    decreases at + 9 - from,
{
    reveal_strlit("#![allow(");
    if from < at + 9 {
        assert(text.subrange(at, at + 9)[from - at] == needle[from - at]);
        attribute_line(text, needle, at, from + 1);
    } else {
        end_is_behind(text, from);
    }
}

proof fn end_is_behind(text: Seq<char>, from: int)
    requires
        0 <= from <= text.len(),
    ensures
        from <= line_end(text, from) <= text.len(),
    decreases text.len() - from,
{
    if from < text.len() && text[from] != '\n' {
        end_is_behind(text, from + 1);
    }
}

} // verus!
