//! What holds of texts that are cut and put together.

use crate::cli::places::{begun, column_behind, line_behind};
use crate::cli::prelude::{
    first_directory, parts_from, places, slash, without_extension, StdlibCandidate, StdlibPlace,
};
use crate::format::{column, differences, line_at, side};
use crate::text::{
    decimal, has_text, joined, line_feed, lines_from, stands_at, trimmed, trimmed_end, trimmed_start, white_space,
    without_return,
};
use vstd::prelude::*;
use vstd::utf8::encode_utf8;

verus! {

broadcast use vstd::string::group_string_axioms;

// ---------------------------------------------------------------------------
// White space
// ---------------------------------------------------------------------------

/// Whether all characters of a text are white space.
pub open spec fn blank(text: Seq<char>) -> bool {
    forall|i: int| 0 <= i < text.len() ==> white_space(#[trigger] text[i])
}

/// Trimming takes white space off both ends of a text and nothing else, and leaves none there.
pub proof fn law_trimming_takes_white_space_off(text: Seq<char>)
    ensures
        exists|front: Seq<char>, behind: Seq<char>|
            #[trigger] blank(front) && #[trigger] blank(behind) && text == front + trimmed(text) + behind,
        trimmed(text).len() > 0 ==> !white_space(trimmed(text)[0]) && !white_space(trimmed(text).last()),
        exists|front: Seq<char>| #[trigger] blank(front) && text == front + trimmed_start(text),
        trimmed_start(text).len() > 0 ==> !white_space(trimmed_start(text)[0]),
{
    let front = taken_front(text);
    let start = trimmed_start(text);
    let behind = taken_behind(start);
    if trimmed(text).len() > 0 {
        assert(trimmed(text)[0] == start[0]);
    }
    assert(front + trimmed(text) + behind =~= text);
    assert(front + start =~= text);
}

proof fn taken_front(text: Seq<char>) -> (front: Seq<char>)
    ensures
        blank(front),
        text == front + trimmed_start(text),
        trimmed_start(text).len() > 0 ==> !white_space(trimmed_start(text)[0]),
    decreases text.len(),
{
    if text.len() > 0 && white_space(text[0]) {
        let rest = taken_front(text.drop_first());
        let front = seq![text[0]] + rest;
        assert(text =~= seq![text[0]] + text.drop_first());
        assert(seq![text[0]] + (rest + trimmed_start(text)) =~= front + trimmed_start(text));
        assert forall|i: int| 0 <= i < front.len() implies white_space(#[trigger] front[i]) by {
            if i > 0 {
                assert(front[i] == rest[i - 1]);
            }
        }
        front
    } else {
        assert(text =~= Seq::<char>::empty() + text);
        Seq::empty()
    }
}

proof fn taken_behind(text: Seq<char>) -> (behind: Seq<char>)
    ensures
        blank(behind),
        text == trimmed_end(text) + behind,
        trimmed_end(text).len() > 0 ==> !white_space(trimmed_end(text).last()),
    decreases text.len(),
{
    if text.len() > 0 && white_space(text.last()) {
        let rest = taken_behind(text.drop_last());
        let behind = rest.push(text.last());
        assert(text =~= text.drop_last().push(text.last()));
        assert((trimmed_end(text) + rest).push(text.last()) =~= trimmed_end(text) + behind);
        behind
    } else {
        assert(text =~= text + Seq::<char>::empty());
        Seq::empty()
    }
}

// ---------------------------------------------------------------------------
// Lines
// ---------------------------------------------------------------------------

/// Lines with a line feed behind each.
pub open spec fn ended(list: Seq<Seq<char>>) -> Seq<char>
    decreases list.len(),
{
    if list.len() == 0 {
        Seq::empty()
    } else {
        list[0].push('\n') + ended(list.drop_first())
    }
}

/// The lines of a text without carriage returns, each with a line feed behind it, are the text, with a line feed at its
/// end where it had none there. No line holds a line feed. A carriage return in front of a line feed goes with it.
pub proof fn law_texts_are_cut_at_line_feeds(text: Seq<char>, from: int)
    requires
        0 <= from <= text.len(),
    ensures
        forall|i: int| 0 <= i < lines_from(text, from).len() ==> !(#[trigger] lines_from(text, from)[i]).contains('\n'),
        !text.contains('\r') ==> ended(lines_from(text, from)) == (if from == text.len() || text.last() == '\n' {
            text.skip(from)
        } else {
            text.skip(from).push('\n')
        }),
        forall|line: Seq<char>| without_return(#[trigger] line.push('\r')) == line,
    decreases text.len() - from,
{
    assert forall|line: Seq<char>| without_return(#[trigger] line.push('\r')) == line by {
        assert(line.push('\r').drop_last() =~= line);
    }
    if from < text.len() {
        next_feed(text, from);
        let end = line_feed(text, from);
        let all = lines_from(text, from);
        if end >= text.len() {
            let last = text.subrange(from, text.len() as int);
            assert forall|i: int| 0 <= i < last.len() implies last[i] != '\n' by {
                assert(text[from + i] != '\n');
            }
            assert(last =~= text.skip(from));
            assert(all.drop_first() =~= Seq::<Seq<char>>::empty());
            assert(ended(all.drop_first()) =~= Seq::<char>::empty());
            assert(ended(all) =~= text.skip(from).push('\n'));
            assert(text.last() == text[text.len() - 1]);
        } else {
            let whole = text.subrange(from, end);
            let first = without_return(whole);
            assert forall|i: int| 0 <= i < first.len() implies first[i] != '\n' by {
                assert(text[from + i] != '\n');
            }
            law_texts_are_cut_at_line_feeds(text, end + 1);
            assert(all.drop_first() =~= lines_from(text, end + 1));
            if !text.contains('\r') {
                if whole.len() > 0 {
                    assert(text.contains(text[end - 1]));
                }
                assert(first == whole);
                assert(first.push('\n') + text.skip(end + 1) =~= text.skip(from));
                assert(first.push('\n') + text.skip(end + 1).push('\n') =~= text.skip(from).push('\n'));
                if end + 1 == text.len() {
                    assert(text.last() == '\n');
                }
            }
        }
    } else {
        assert(text.skip(from) =~= Seq::<char>::empty());
    }
}

proof fn next_feed(text: Seq<char>, from: int)
    requires
        0 <= from <= text.len(),
    ensures
        from <= line_feed(text, from) <= text.len(),
        forall|i: int| from <= i < line_feed(text, from) ==> #[trigger] text[i] != '\n',
        line_feed(text, from) < text.len() ==> text[line_feed(text, from)] == '\n',
    decreases text.len() - from,
{
    if from < text.len() && text[from] != '\n' {
        next_feed(text, from + 1);
    }
}

// ---------------------------------------------------------------------------
// Places
// ---------------------------------------------------------------------------

/// A place is on the line behind as many line feeds as stand before it, and in the column behind as many characters as
/// stand before it on that line.
pub proof fn law_lines_and_columns_are_counted(before: Seq<char>, line: Seq<char>)
    requires
        !line.contains('\n'),
    ensures
        line_behind(line) == 1 && column_behind(line) == line.len() + 1,
        line_behind(before.push('\n') + line) == line_behind(before) + 1,
        column_behind(before.push('\n') + line) == line.len() + 1,
    decreases line.len(),
{
    let whole = before.push('\n') + line;
    if line.len() == 0 {
        assert(whole =~= before.push('\n'));
        assert(before.push('\n').drop_last() =~= before);
    } else {
        let less = line.drop_last();
        assert forall|i: int| 0 <= i < less.len() implies less[i] != '\n' by {
            assert(line.contains(line[i]));
        }
        assert(!less.contains('\n'));
        law_lines_and_columns_are_counted(before, less);
        assert(line.contains(line.last()));
        assert(whole.drop_last() =~= before.push('\n') + less);
    }
}

/// The characters that begin before a byte offset are a first part of the text: each of them begins before the offset,
/// and the next one does not.
pub proof fn law_offsets_count_bytes(text: Seq<char>, offset: int)
    ensures
        ({
            let part = begun(text, offset);
            &&& part.len() <= text.len() && part == text.take(part.len() as int)
            &&& part.len() > 0 ==> encode_utf8(part.drop_last()).len() < offset
            &&& part.len() < text.len() ==> encode_utf8(part).len() >= offset
        }),
    decreases text.len(),
{
    if text.len() == 0 || encode_utf8(text.drop_last()).len() < offset {
        assert(text.take(text.len() as int) =~= text);
    } else {
        let less = text.drop_last();
        law_offsets_count_bytes(less, offset);
        let part = begun(less, offset);
        assert(less.take(part.len() as int) =~= text.take(part.len() as int));
        if part.len() == less.len() {
            assert(part =~= less);
        }
    }
}

// ---------------------------------------------------------------------------
// Paths
// ---------------------------------------------------------------------------

/// The parts of a path, put together with slashes, are the path, and no part holds a slash.
pub proof fn law_paths_are_cut_at_slashes(text: Seq<char>, from: int)
    requires
        0 <= from <= text.len(),
    ensures
        parts_from(text, from).len() > 0,
        joined(parts_from(text, from), "/"@) == text.skip(from),
        forall|i: int| 0 <= i < parts_from(text, from).len() ==> !(#[trigger] parts_from(text, from)[i]).contains('/'),
    decreases text.len() - from,
{
    next_slash(text, from);
    let end = slash(text, from);
    let first = text.subrange(from, end);
    assert forall|i: int| 0 <= i < first.len() implies first[i] != '/' by {
        assert(text[from + i] != '/');
    }
    if end >= text.len() {
        assert(first =~= text.skip(from));
    } else {
        law_paths_are_cut_at_slashes(text, end + 1);
        joined_front(first, parts_from(text, end + 1));
        reveal_strlit("/");
        assert(first + "/"@ + text.skip(end + 1) =~= text.skip(from));
    }
}

proof fn next_slash(text: Seq<char>, from: int)
    requires
        0 <= from <= text.len(),
    ensures
        from <= slash(text, from) <= text.len(),
        forall|i: int| from <= i < slash(text, from) ==> #[trigger] text[i] != '/',
        slash(text, from) < text.len() ==> text[slash(text, from)] == '/',
    decreases text.len() - from,
{
    if from < text.len() && text[from] != '/' {
        next_slash(text, from + 1);
    }
}

proof fn joined_front(first: Seq<char>, rest: Seq<Seq<char>>)
    requires
        rest.len() > 0,
    ensures
        joined(seq![first] + rest, "/"@) == first + "/"@ + joined(rest, "/"@),
    decreases rest.len(),
{
    let all = seq![first] + rest;
    assert(all.last() == rest.last());
    if rest.len() == 1 {
        assert(all.drop_last() =~= seq![first]);
        assert(joined(all.drop_last(), "/"@) == first);
    } else {
        joined_front(first, rest.drop_last());
        assert(all.drop_last() =~= seq![first] + rest.drop_last());
        assert(first + "/"@ + joined(rest.drop_last(), "/"@) + "/"@ + rest.last() =~= first + "/"@ + (joined(
            rest.drop_last(),
            "/"@,
        ) + "/"@ + rest.last()));
    }
}

/// The extension of source files is taken off a path's end, once or more, and nothing else is.
pub proof fn law_extensions_are_taken_off(path: Seq<char>)
    ensures
        !(without_extension(path).len() >= 5 && without_extension(path).skip(without_extension(path).len() - 5)
            == ".incn"@),
        without_extension(path + ".incn"@) == without_extension(path),
        !(path.len() >= 5 && path.skip(path.len() - 5) == ".incn"@) ==> without_extension(path) == path,
    decreases path.len(),
{
    reveal_strlit(".incn");
    let longer = path + ".incn"@;
    assert(longer.subrange(longer.len() - 5, longer.len() as int) =~= ".incn"@);
    assert(longer.take(longer.len() - 5) =~= path);
    if path.len() >= 5 {
        assert(path.skip(path.len() - 5) =~= path.subrange(path.len() - 5, path.len() as int));
        if path.subrange(path.len() - 5, path.len() as int) == ".incn"@ {
            law_extensions_are_taken_off(path.take(path.len() - 5));
        }
    }
}

/// The standard library is looked for under the working directory first, then above the executable, nearest directory
/// first and no more than three, and at last where the environment says, if it says so.
pub proof fn law_stdlib_places_are_tried_in_order(directories: nat, configured: bool)
    ensures
        ({
            let tried = places(directories, configured);
            let above = if directories < 3 {
                directories as int
            } else {
                3
            };
            &&& tried.len() == 1 + above + (if configured {
                1int
            } else {
                0
            })
            &&& tried[0] is WorkingDirectory
            &&& forall|i: int| 1 <= i <= above ==> #[trigger] tried[i] == StdlibPlace::AboveExecutable((i - 1) as usize)
            &&& configured ==> tried.last() is Configured
            &&& !configured ==> !tried.contains(StdlibPlace::Configured)
        }),
{
}

/// The standard library is the first candidate that is there and is a directory.
pub proof fn law_stdlib_is_the_first_directory(candidates: Seq<StdlibCandidate>, from: int)
    requires
        0 <= from,
    ensures
        match first_directory(candidates, from) {
            Some(at) => {
                &&& from <= at < candidates.len()
                &&& candidates[at].exists && candidates[at].is_dir
                &&& forall|i: int| from <= i < at ==> !((#[trigger] candidates[i]).exists && candidates[i].is_dir)
            },
            None => forall|i: int|
                from <= i < candidates.len() ==> !((#[trigger] candidates[i]).exists && candidates[i].is_dir),
        },
    decreases candidates.len() - from,
{
    if from < candidates.len() && !(candidates[from].exists && candidates[from].is_dir) {
        law_stdlib_is_the_first_directory(candidates, from + 1);
    }
}

// ---------------------------------------------------------------------------
// Differences
// ---------------------------------------------------------------------------

/// Every line that differs is shown with its number: first as it was, then as it is.
pub proof fn law_changed_lines_are_shown(
    original: Seq<Seq<char>>,
    changed: Seq<Seq<char>>,
    from: int,
    at: int,
)
    requires
        0 <= from <= at,
        at < original.len() || at < changed.len(),
        line_at(original, at) != line_at(changed, at),
    ensures
        has_text(
            differences(original, changed, from),
            side("-"@, (at + 1) as nat, line_at(original, at)) + side("+"@, (at + 1) as nat, line_at(changed, at)),
        ),
    decreases at - from,
{
    let shown = side("-"@, (at + 1) as nat, line_at(original, at)) + side("+"@, (at + 1) as nat, line_at(changed, at));
    let all = differences(original, changed, from);
    let rest = differences(original, changed, from + 1);
    if from == at {
        assert(all.subrange(0, shown.len() as int) =~= shown);
        assert(stands_at(all, 0, shown));
    } else {
        law_changed_lines_are_shown(original, changed, from + 1, at);
        let k = choose|k: int| stands_at(rest, k, shown);
        let skipped = all.len() - rest.len();
        assert(all.skip(skipped) =~= rest);
        assert(all.subrange(skipped + k, skipped + k + shown.len()) =~= rest.subrange(k, k + shown.len()));
        assert(stands_at(all, skipped + k, shown));
    }
}

/// One side of a difference is its mark, the line's number to the right of four columns, and the line. An empty line is
/// not shown.
pub proof fn law_sides_show_their_line(mark: Seq<char>, number: nat, line: Seq<char>)
    ensures
        line.len() == 0 ==> side(mark, number, line).len() == 0,
        line.len() > 0 ==> side(mark, number, line) == mark + column(decimal(number)) + seq![' ', '|', ' '] + line
            + seq!['\n'],
        column(decimal(number)).len() >= 4,
        decimal(number).len() >= 4 ==> column(decimal(number)) == decimal(number),
        decimal(number).len() < 4 ==> column(decimal(number)).len() == 4 && column(decimal(number)).skip(
            4 - decimal(number).len(),
        ) == decimal(number) && forall|i: int|
            0 <= i < 4 - decimal(number).len() ==> #[trigger] column(decimal(number))[i] == ' ',
{
    reveal_strlit(" | ");
    reveal_strlit("\n");
    assert(" | "@ =~= seq![' ', '|', ' ']);
    assert("\n"@ =~= seq!['\n']);
    padded(decimal(number));
}

proof fn padded(text: Seq<char>)
    ensures
        column(text).len() >= 4,
        text.len() >= 4 ==> column(text) == text,
        text.len() < 4 ==> column(text).len() == 4 && column(text).skip(4 - text.len()) == text && forall|i: int|
            0 <= i < 4 - text.len() ==> #[trigger] column(text)[i] == ' ',
    decreases 4 - text.len(),
{
    if text.len() < 4 {
        let longer = seq![' '] + text;
        padded(longer);
        assert(column(text) == column(longer));
        if longer.len() < 4 {
            assert(column(longer).skip(4 - longer.len()).skip(1) =~= column(longer).skip(4 - text.len()));
            assert(longer.skip(1) =~= text);
            assert(column(longer).skip(4 - longer.len())[0] == longer[0]);
        } else {
            assert(column(longer).skip(4 - text.len()) =~= text);
        }
    }
}

} // verus!
