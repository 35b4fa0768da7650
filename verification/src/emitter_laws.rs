//! What holds of written Rust code.

use crate::rust_emitter::{
    arguments, closed, deeper, fielded, function_header, impl_header, indentation, lined, nesting, opened, rust_ident,
    rust_operator, shallower, variant_line, varianted, visibility_prefix, EmitterModel,
};
use crate::text::{joined, texts};
use vstd::prelude::*;

verus! {

// ---------------------------------------------------------------------------
// Identifiers and operators
// ---------------------------------------------------------------------------

/// Connectives are spelled in symbols, and the operators that both languages have are spelled alike. No operator is
/// turned into another one.
pub proof fn law_operators_are_spelled_alike(op: Seq<char>)
    ensures
        op == "and"@ ==> rust_operator(op) == "&&"@,
        op == "or"@ ==> rust_operator(op) == "||"@,
        op == "=="@ || op == "!="@ || op == "<"@ || op == ">"@ || op == "<="@ || op == ">="@ ==> rust_operator(op) == op,
        op == "+"@ || op == "-"@ || op == "*"@ || op == "/"@ || op == "%"@ ==> rust_operator(op) == op,
        rust_operator(op) == op || op == "and"@ || op == "or"@ || rust_operator(op) == "/* unknown op */"@,
{
    reveal_strlit("and");
    reveal_strlit("or");
    reveal_strlit("==");
    reveal_strlit("!=");
    reveal_strlit("<=");
    reveal_strlit(">=");
    assert("or"@[0] == 'o' && "=="@[0] == '=' && "!="@[0] == '!' && "<="@[0] == '<' && ">="@[0] == '>');
    reveal_strlit("<");
    reveal_strlit(">");
    reveal_strlit("+");
    reveal_strlit("-");
    reveal_strlit("*");
    reveal_strlit("/");
    reveal_strlit("%");
}

/// A reserved word is written raw; every other name is written as it is, so that different names stay different as long
/// as none of them is raw already.
pub proof fn law_reserved_words_are_written_raw(name: Seq<char>, other: Seq<char>)
    ensures
        name == "type"@ || name == "match"@ || name == "mod"@ || name == "ref"@ ==> rust_ident(name) == "r#"@ + name,
        name != "type"@ && name != "match"@ && name != "mod"@ && name != "ref"@ ==> rust_ident(name) == name,
        !name.contains('#') && !other.contains('#') && rust_ident(name) == rust_ident(other) ==> name == other,
{
    reveal_strlit("type");
    reveal_strlit("match");
    reveal_strlit("mod");
    reveal_strlit("ref");
    reveal_strlit("r#");
    reveal_strlit("r#type");
    reveal_strlit("r#match");
    reveal_strlit("r#mod");
    reveal_strlit("r#ref");
    assert("r#"@ + "type"@ =~= "r#type"@);
    assert("r#"@ + "match"@ =~= "r#match"@);
    assert("r#"@ + "mod"@ =~= "r#mod"@);
    assert("r#"@ + "ref"@ =~= "r#ref"@);
    assert("mod"@[0] != "ref"@[0]);
    let (a, b) = (rust_ident(name), rust_ident(other));
    if a == b && !name.contains('#') && !other.contains('#') {
        if a != name {
            assert(a[1] == '#');
            if b == other {
                assert(other[1] == '#');
                assert(other.contains('#'));
            }
            assert(a.skip(2) =~= name);
            assert(b.skip(2) =~= other);
        } else if b != other {
            assert(b[1] == '#');
            assert(name[1] == '#');
            assert(name.contains('#'));
        }
    }
}

// ---------------------------------------------------------------------------
// Lines
// ---------------------------------------------------------------------------

/// Whether a text ends with another.
pub open spec fn ends(text: Seq<char>, end: Seq<char>) -> bool {
    &&& text.len() >= end.len()
    &&& text.skip(text.len() - end.len()) == end
}

proof fn indentation_repeats(unit: Seq<char>, level: nat, at: int)
    requires
        0 <= at < indentation(unit, level).len(),
        unit.len() > 0,
    ensures
        indentation(unit, level)[at] == unit[at % unit.len() as int],
    decreases level,
{
    indentation_length(unit, (level - 1) as nat);
    let before = indentation(unit, (level - 1) as nat);
    if at < before.len() {
        indentation_repeats(unit, (level - 1) as nat, at);
    } else {
        let n = unit.len() as int;
        let k = (level - 1) as int;
        assert(before.len() == k * n);
        vstd::arithmetic::div_mod::lemma_fundamental_div_mod_converse(at, n, k, at - k * n);
    }
}

proof fn indentation_length(unit: Seq<char>, level: nat)
    ensures
        indentation(unit, level).len() == level * unit.len(),
    decreases level,
{
    if level > 0 {
        indentation_length(unit, (level - 1) as nat);
        assert(level * unit.len() == (level - 1) * unit.len() + unit.len()) by (nonlinear_arith)
            requires
                level > 0,
        ;
    } else {
        assert(level * unit.len() == 0) by (nonlinear_arith)
            requires
                level == 0,
        ;
    }
}

/// A line adds its text behind one unit of indentation for each level, ends the line, and changes nothing else. A block
/// stands one level deeper than the lines that open and close it.
pub proof fn law_lines_stand_at_their_level(m: EmitterModel, text: Seq<char>, header: Seq<char>)
    ensures
        lined(m, text).text.len() == m.text.len() + m.level * m.unit.len() + text.len() + 1,
        lined(m, text).text.take(m.text.len() as int) == m.text,
        ends(lined(m, text).text, text.push('\n')),
        m.unit.len() > 0 ==> forall|at: int|
            m.text.len() <= at < m.text.len() + m.level * m.unit.len() ==> #[trigger] lined(m, text).text[at]
                == m.unit[(at - m.text.len()) % m.unit.len() as int],
        lined(m, text) == (EmitterModel { text: lined(m, text).text, ..m }),
        opened(m, header).level == m.level + 1,
        ends(opened(m, header).text, header + seq![' ', '{', '\n']),
        m.level > 0 ==> closed(m).level == m.level - 1,
        ends(closed(m).text, seq!['}', '\n']),
        closed(deeper(m)).text == lined(m, "}"@).text,
        shallower(deeper(m)) == m,
{
    indentation_length(m.unit, m.level);
    indentation_length(m.unit, shallower(m).level);
    reveal_strlit("\n");
    reveal_strlit("}");
    reveal_strlit(" {");
    let line = lined(m, text);
    assert(line.text.take(m.text.len() as int) =~= m.text);
    assert(line.text.skip(line.text.len() - text.push('\n').len()) =~= text.push('\n'));
    assert("}"@.push('\n') =~= seq!['}', '\n']);
    let open = opened(m, header).text;
    assert(open.skip(open.len() - (header.len() + 3)) =~= header + seq![' ', '{', '\n']);
    let close = closed(m).text;
    assert(close.skip(close.len() - 2) =~= seq!['}', '\n']);
    if m.unit.len() > 0 {
        assert forall|at: int|
            m.text.len() <= at < m.text.len() + m.level * m.unit.len() implies #[trigger] lined(m, text).text[at]
            == m.unit[(at - m.text.len()) % m.unit.len() as int] by {
            indentation_repeats(m.unit, m.level, at - m.text.len());
        }
    }
}

// ---------------------------------------------------------------------------
// Members
// ---------------------------------------------------------------------------

/// Every field of a struct and every variant of an enum has a line of its own, in the order in which they are given: a
/// field with its name and its type, a variant with its name and, in brackets, its types.
pub proof fn law_members_are_written_in_order(
    m: EmitterModel,
    fields: Seq<(String, String)>,
    variants: Seq<(String, Vec<String>)>,
)
    ensures
        fields.len() > 0 ==> fielded(m, fields, 0) == lined(
            fielded(m, fields.drop_last(), 0),
            "pub "@ + fields.last().0@ + ": "@ + fields.last().1@ + ","@,
        ),
        fields.len() == 0 ==> fielded(m, fields, 0) == m,
        variants.len() > 0 ==> varianted(m, variants, 0) == lined(
            varianted(m, variants.drop_last(), 0),
            if variants.last().1@.len() == 0 {
                variants.last().0@ + ","@
            } else {
                variants.last().0@ + "("@ + joined(texts(variants.last().1@), ", "@) + "),"@
            },
        ),
        variants.len() == 0 ==> varianted(m, variants, 0) == m,
{
    if fields.len() > 0 {
        last_field(m, fields, 0);
    }
    if variants.len() > 0 {
        last_variant(m, variants, 0);
    }
}

proof fn last_field(m: EmitterModel, fields: Seq<(String, String)>, from: int)
    requires
        0 <= from < fields.len(),
    ensures
        fielded(m, fields, from) == lined(
            fielded(m, fields.drop_last(), from),
            "pub "@ + fields.last().0@ + ": "@ + fields.last().1@ + ","@,
        ),
    decreases fields.len() - from,
{
    let next = lined(m, "pub "@ + fields[from].0@ + ": "@ + fields[from].1@ + ","@);
    if from < fields.len() - 1 {
        last_field(next, fields, from + 1);
    } else {
        assert(fielded(next, fields, from + 1) == next);
    }
}

proof fn last_variant(m: EmitterModel, variants: Seq<(String, Vec<String>)>, from: int)
    requires
        0 <= from < variants.len(),
    ensures
        varianted(m, variants, from) == lined(varianted(m, variants.drop_last(), from), variant_line(variants.last())),
    decreases variants.len() - from,
{
    let next = lined(m, variant_line(variants[from]));
    if from < variants.len() - 1 {
        last_variant(next, variants, from + 1);
    } else {
        assert(varianted(next, variants, from + 1) == next);
    }
}

// ---------------------------------------------------------------------------
// Type arguments
// ---------------------------------------------------------------------------

/// Whether two characters are the brackets of one kind.
pub open spec fn brackets(open: char, close: char) -> bool {
    ||| open == '[' && close == ']'
    ||| open == '<' && close == '>'
    ||| open == '(' && close == ')'
}

/// Whether a character is a bracket.
pub open spec fn is_bracket(c: char) -> bool {
    c == '[' || c == ']' || c == '<' || c == '>' || c == '(' || c == ')'
}

/// A comma between brackets of any kind cuts nothing: such a text is one argument.
pub proof fn law_bracketed_commas_do_not_cut(open: char, close: char, inner: Seq<char>)
    requires
        brackets(open, close),
        forall|i: int| 0 <= i < inner.len() ==> !is_bracket(#[trigger] inner[i]),
    ensures
        ({
            let text = seq![open] + inner + seq![close];
            arguments(text, 0, 0, 0, Seq::empty()) == seq![text]
        }),
{
    let text = seq![open] + inner + seq![close];
    uncut(text, inner, open, close, 1);
    assert(nesting(text[0]) == 1);
}

proof fn uncut(text: Seq<char>, inner: Seq<char>, open: char, close: char, at: int)
    requires
        brackets(open, close),
        text == seq![open] + inner + seq![close],
        forall|i: int| 0 <= i < inner.len() ==> !is_bracket(#[trigger] inner[i]),
        1 <= at < text.len(),
    ensures
        arguments(text, at, 0, 1, Seq::empty()) == seq![text],
    decreases text.len() - at,
{
    if at < text.len() - 1 {
        let c = inner[at - 1];
        assert(text[at] == c);
        assert(nesting(c) == 0);
        uncut(text, inner, open, close, at + 1);
    } else {
        assert(text[at] == close);
        assert(nesting(close) == -1);
        assert(text.subrange(0, text.len() as int) =~= text);
        assert(arguments(text, at + 1, 0, 0, Seq::empty()) =~= seq![text]);
    }
}

/// The arguments of a type are cut at the commas outside all brackets and nowhere else: put together again with commas,
/// they are the text, but for a comma at its very end.
pub proof fn law_arguments_are_cut_at_outer_commas(text: Seq<char>)
    ensures
        ({
            let parts = arguments(text, 0, 0, 0, Seq::empty());
            joined(parts, ","@) == text || joined(parts, ","@).push(',') == text
        }),
        !text.contains(',') && text.len() > 0 ==> arguments(text, 0, 0, 0, Seq::empty()) == seq![text],
{
    cut_from(text, 0, 0, 0, Seq::empty());
}

proof fn cut_from(text: Seq<char>, at: int, start: int, level: int, done: Seq<Seq<char>>)
    requires
        0 <= start <= at <= text.len(),
        start == 0 ==> done.len() == 0,
        start > 0 ==> done.len() > 0 && joined(done, ","@) == text.take(start - 1) && text[start - 1] == ',',
    ensures
        ({
            let parts = arguments(text, at, start, level, done);
            joined(parts, ","@) == text || joined(parts, ","@).push(',') == text
        }),
        start == 0 && !text.contains(',') && text.len() > 0 ==> arguments(text, at, start, level, done) == seq![text],
    decreases text.len() - at,
{
    reveal_strlit(",");
    if at >= text.len() {
        if start < text.len() {
            let last = text.subrange(start, text.len() as int);
            grown(done, last);
            if start > 0 {
                assert(text.take(start - 1) + ","@ + last =~= text);
            } else {
                assert(last =~= text);
                assert(done.push(last) =~= seq![text]);
            }
        } else if start > 0 {
            assert(text.take(start - 1).push(',') =~= text);
        } else {
            assert(text =~= joined(done, ","@));
        }
    } else if text[at] == ',' && level == 0 {
        let part = text.subrange(start, at);
        grown(done, part);
        if start > 0 {
            assert(text.take(start - 1) + ","@ + part =~= text.take(at));
        } else {
            assert(part =~= text.take(at));
        }
        assert(text.contains(','));
        cut_from(text, at + 1, at + 1, level, done.push(part));
    } else {
        cut_from(text, at + 1, start, level + nesting(text[at]), done);
    }
}

proof fn grown(done: Seq<Seq<char>>, part: Seq<char>)
    ensures
        done.len() == 0 ==> joined(done.push(part), ","@) == part,
        done.len() > 0 ==> joined(done.push(part), ","@) == joined(done, ","@) + ","@ + part,
{
    assert(done.push(part).drop_last() =~= done);
}

// ---------------------------------------------------------------------------
// Headers
// ---------------------------------------------------------------------------

/// The parts of a function's header stand where they belong: a visibility and `async` in front, type parameters in
/// angle brackets behind the name, parameters in round brackets, and a return type behind an arrow at the end. A part
/// that is not given leaves nothing behind.
pub proof fn law_headers_have_their_parts(
    visibility: Seq<char>,
    is_async: bool,
    name: Seq<char>,
    type_params: Seq<Seq<char>>,
    params: Seq<char>,
    return_type: Seq<char>,
)
    ensures
        function_header(Seq::empty(), false, name, Seq::empty(), params, Seq::empty()) == "fn "@ + name + "("@ + params
            + ")"@,
        visibility.len() > 0 ==> function_header(visibility, is_async, name, type_params, params, return_type)
            == visibility + seq![' '] + function_header(Seq::empty(), is_async, name, type_params, params, return_type),
        function_header(Seq::empty(), true, name, type_params, params, return_type) == "async "@ + function_header(
            Seq::empty(),
            false,
            name,
            type_params,
            params,
            return_type,
        ),
        type_params.len() > 0 ==> function_header(visibility, is_async, name, type_params, params, return_type)
            == function_header(
            visibility,
            is_async,
            name + "<"@ + joined(type_params, ", "@) + ">"@,
            Seq::empty(),
            params,
            return_type,
        ),
        return_type.len() > 0 ==> function_header(visibility, is_async, name, type_params, params, return_type)
            == function_header(visibility, is_async, name, type_params, params, Seq::empty()) + " -> "@ + return_type,
        impl_header(None, name) == "impl "@ + name,
        impl_header(Some(params), name) == "impl "@ + params + " for "@ + name,
{
    header_front(visibility, is_async, header_rest(name, type_params, params, return_type));
    header_front(Seq::empty(), is_async, header_rest(name, type_params, params, return_type));
    header_front(Seq::empty(), true, header_rest(name, type_params, params, return_type));
    header_front(Seq::empty(), false, header_rest(name, type_params, params, return_type));
    header_front(Seq::empty(), false, header_rest(name, Seq::empty(), params, Seq::empty()));
    header_parts(visibility, is_async, name, type_params, params, return_type);
    header_parts(visibility, is_async, name, type_params, params, Seq::empty());
    header_parts(Seq::empty(), is_async, name, type_params, params, return_type);
    header_parts(Seq::empty(), true, name, type_params, params, return_type);
    header_parts(Seq::empty(), false, name, type_params, params, return_type);
    header_parts(Seq::empty(), false, name, Seq::empty(), params, Seq::empty());
    let generic = name + "<"@ + joined(type_params, ", "@) + ">"@;
    header_parts(visibility, is_async, generic, Seq::empty(), params, return_type);
    rest_parts(name, type_params, params, return_type);
    assert(visibility_prefix(visibility) + (if is_async {
        "async "@
    } else {
        Seq::empty()
    }) + (header_rest(name, type_params, params, Seq::empty()) + " -> "@ + return_type) =~= visibility_prefix(visibility)
        + (if is_async {
        "async "@
    } else {
        Seq::empty()
    }) + header_rest(name, type_params, params, Seq::empty()) + " -> "@ + return_type);
}

/// A header behind its visibility and `async`.
spec fn header_rest(name: Seq<char>, type_params: Seq<Seq<char>>, params: Seq<char>, return_type: Seq<char>) -> Seq<
    char,
> {
    function_header(Seq::empty(), false, name, type_params, params, return_type)
}

proof fn header_front(visibility: Seq<char>, is_async: bool, rest: Seq<char>)
    ensures
        visibility.len() > 0 ==> visibility_prefix(visibility) + (if is_async {
            "async "@
        } else {
            Seq::empty()
        }) + rest == visibility + seq![' '] + ((if is_async {
            "async "@
        } else {
            Seq::empty()
        }) + rest),
        visibility.len() == 0 ==> visibility_prefix(visibility) + (if is_async {
            "async "@
        } else {
            Seq::empty()
        }) + rest == (if is_async {
            "async "@
        } else {
            Seq::empty()
        }) + rest,
        Seq::<char>::empty() + rest == rest,
{
    reveal_strlit(" ");
    assert(" "@ =~= seq![' ']);
    let middle = if is_async {
        "async "@
    } else {
        Seq::empty()
    };
    assert(visibility + " "@ + middle + rest =~= visibility + seq![' '] + (middle + rest));
    assert(Seq::<char>::empty() + middle + rest =~= middle + rest);
    assert(Seq::<char>::empty() + rest =~= rest);
}

proof fn header_parts(
    visibility: Seq<char>,
    is_async: bool,
    name: Seq<char>,
    type_params: Seq<Seq<char>>,
    params: Seq<char>,
    return_type: Seq<char>,
)
    ensures
        function_header(visibility, is_async, name, type_params, params, return_type) == visibility_prefix(visibility)
            + (if is_async {
            "async "@
        } else {
            Seq::empty()
        }) + header_rest(name, type_params, params, return_type),
{
    let front = visibility_prefix(visibility) + (if is_async {
        "async "@
    } else {
        Seq::empty()
    });
    let generics = if type_params.len() == 0 {
        Seq::empty()
    } else {
        "<"@ + joined(type_params, ", "@) + ">"@
    };
    let arrow = if return_type.len() == 0 {
        Seq::empty()
    } else {
        " -> "@ + return_type
    };
    let none = Seq::<char>::empty() + Seq::<char>::empty();
    assert(front + "fn "@ + name + generics + "("@ + params + ")"@ + arrow =~= front + (none + "fn "@ + name + generics
        + "("@ + params + ")"@ + arrow));
}

proof fn rest_parts(name: Seq<char>, type_params: Seq<Seq<char>>, params: Seq<char>, return_type: Seq<char>)
    ensures
        header_rest(name, Seq::empty(), params, Seq::empty()) == "fn "@ + name + "("@ + params + ")"@,
        type_params.len() > 0 ==> header_rest(name, type_params, params, return_type) == header_rest(
            name + "<"@ + joined(type_params, ", "@) + ">"@,
            Seq::empty(),
            params,
            return_type,
        ),
        return_type.len() > 0 ==> header_rest(name, type_params, params, return_type) == header_rest(
            name,
            type_params,
            params,
            Seq::empty(),
        ) + " -> "@ + return_type,
{
    let none = Seq::<char>::empty() + Seq::<char>::empty();
    let inside = "<"@ + joined(type_params, ", "@) + ">"@;
    let generics = if type_params.len() == 0 {
        Seq::empty()
    } else {
        inside
    };
    let arrow = if return_type.len() == 0 {
        Seq::empty()
    } else {
        " -> "@ + return_type
    };
    let empty = Seq::<char>::empty();
    assert(none + "fn "@ + name + empty + "("@ + params + ")"@ + empty =~= "fn "@ + name + "("@ + params + ")"@);
    assert(none + "fn "@ + name + inside + "("@ + params + ")"@ + arrow =~= none + "fn "@ + (name + "<"@ + joined(
        type_params,
        ", "@,
    ) + ">"@) + empty + "("@ + params + ")"@ + arrow);
    let front = none + "fn "@ + name + generics + "("@ + params + ")"@;
    assert(front + (" -> "@ + return_type) =~= front + empty + " -> "@ + return_type);
}

} // verus!
