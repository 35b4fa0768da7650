//! What holds of written Rust types.

use crate::rust_emitter::{
    arguments, bracketed, built_in_type, char_place, convertible, nesting, rust_type, rust_types, type_arguments,
};
use crate::text::{joined, trimmed, white_space};
use vstd::prelude::*;

verus! {

/// Each built-in type is written as the Rust type that holds its values, and a name without brackets that is not built
/// in is written as it is.
pub proof fn law_built_in_types_have_their_rust_types(ty: Seq<char>)
    ensures
        ty == "int"@ ==> rust_type(ty) == "i64"@,
        ty == "float"@ ==> rust_type(ty) == "f64"@,
        ty == "bool"@ ==> rust_type(ty) == "bool"@,
        ty == "str"@ ==> rust_type(ty) == "String"@,
        ty == "bytes"@ ==> rust_type(ty) == "Vec<u8>"@,
        ty == "Unit"@ ==> rust_type(ty) == "()"@,
        ty == "None"@ ==> rust_type(ty) == "()"@,
        ty == "Semaphore"@ ==> rust_type(ty) == "std::sync::Arc<tokio::sync::Semaphore>"@,
        ty == "Barrier"@ ==> rust_type(ty) == "std::sync::Arc<tokio::sync::Barrier>"@,
        !built_in(ty) && !ty.contains('[') ==> rust_type(ty) == ty,
        built_in(ty) || !ty.contains('[') ==> convertible(ty),
{
    told_apart(ty);
    nowhere(ty, '[', 0);
}

/// Whether a type is built in.
pub open spec fn built_in(ty: Seq<char>) -> bool {
    ty == "int"@ || ty == "float"@ || ty == "bool"@ || ty == "str"@ || ty == "bytes"@ || ty == "Unit"@ || ty == "None"@
        || ty == "Semaphore"@ || ty == "Barrier"@
}

proof fn told_apart(ty: Seq<char>)
    ensures
        ty == "float"@ ==> ty != "int"@,
        ty == "bool"@ ==> ty != "int"@ && ty != "float"@,
        ty == "str"@ ==> ty != "int"@ && ty != "float"@ && ty != "bool"@,
        ty == "bytes"@ ==> ty != "int"@ && ty != "float"@ && ty != "bool"@ && ty != "str"@,
        ty == "Unit"@ || ty == "None"@ || ty == "Semaphore"@ || ty == "Barrier"@ ==> ty != "int"@ && ty != "float"@ && ty
            != "bool"@ && ty != "str"@ && ty != "bytes"@,
        ty == "Semaphore"@ || ty == "Barrier"@ ==> ty != "Unit"@ && ty != "None"@,
        ty == "Barrier"@ ==> ty != "Semaphore"@,
        built_in(ty) ==> !ty.contains('['),
{
    reveal_strlit("int");
    reveal_strlit("float");
    reveal_strlit("bool");
    reveal_strlit("str");
    reveal_strlit("bytes");
    reveal_strlit("Unit");
    reveal_strlit("None");
    reveal_strlit("Semaphore");
    reveal_strlit("Barrier");
    assert(ty == "int"@ ==> ty[0] == 'i');
    assert(ty == "float"@ ==> ty[0] == 'f');
    assert(ty == "bool"@ ==> ty[0] == 'b' && ty[1] == 'o');
    assert(ty == "str"@ ==> ty[0] == 's');
    assert(ty == "bytes"@ ==> ty[0] == 'b' && ty[1] == 'y');
    assert(ty == "Unit"@ ==> ty[0] == 'U');
    assert(ty == "None"@ ==> ty[0] == 'N');
    assert(ty == "Semaphore"@ ==> ty[0] == 'S');
    assert(ty == "Barrier"@ ==> ty[0] == 'B');
}

/// A character that a text does not hold has no place in it, and one that it holds has a first place.
proof fn nowhere(text: Seq<char>, c: char, from: int)
    requires
        0 <= from,
    ensures
        char_place(text, c, from) is None <==> forall|i: int| from <= i < text.len() ==> text[i] != c,
    decreases text.len() - from,
{
    if from < text.len() && text[from] != c {
        nowhere(text, c, from + 1);
    }
}

proof fn first_at(text: Seq<char>, c: char, from: int, at: int)
    requires
        0 <= from <= at < text.len(),
        text[at] == c,
        forall|i: int| from <= i < at ==> text[i] != c,
    ensures
        char_place(text, c, from) == Some(at),
    decreases at - from,
{
    if from < at {
        first_at(text, c, from + 1, at);
    }
}

/// A type with one argument: a name and the argument in square brackets.
pub open spec fn applied(name: Seq<char>, inner: Seq<char>) -> Seq<char> {
    name.push('[') + inner.push(']')
}

/// Whether a text is a whole argument: nothing in it cuts it, and no white space stands around it.
pub open spec fn whole(text: Seq<char>) -> bool {
    &&& text.len() > 0
    &&& !text.contains(',')
    &&& !white_space(text[0])
    &&& !white_space(text.last())
}

/// How a container is written around its arguments: lists as vectors, dictionaries and sets as hashed collections,
/// tuples in round brackets, and any other name as itself with angle brackets.
pub open spec fn container(name: Seq<char>, inside: Seq<char>, text: Seq<char>) -> bool {
    &&& name == "List"@ ==> text == "Vec<"@ + inside + ">"@
    &&& name == "Dict"@ ==> text == "std::collections::HashMap<"@ + inside + ">"@
    &&& name == "Set"@ ==> text == "std::collections::HashSet<"@ + inside + ">"@
    &&& name == "Tuple"@ ==> text == "("@ + inside + ")"@
    &&& name != "List"@ && name != "Dict"@ && name != "Set"@ && name != "Tuple"@ ==> text == name + "<"@ + inside + ">"@
}

/// A type with one argument is written as its container around the argument's Rust type.
pub proof fn law_containers_hold_their_argument(name: Seq<char>, item: Seq<char>)
    requires
        !name.contains('['),
        whole(item),
    ensures
        container(name, rust_type(item), rust_type(applied(name, item))),
        convertible(item) ==> convertible(applied(name, item)),
{
    let ty = applied(name, item);
    taken_apart(name, item);
    one_argument(item, 0);
    untrimmed(item);
    let args = type_arguments(ty);
    assert(arguments(item, 0, 0, 0, Seq::empty()) =~= seq![item]);
    assert(args =~= seq![item]);
    let types = rust_types(args, ty.len());
    assert(types =~= seq![rust_type(item)]);
    assert(joined(types, ", "@) == rust_type(item));
    names_apart(name);
    frames(name, rust_type(item));
}

/// A type with two arguments is written as its container around both Rust types, in their order.
pub proof fn law_containers_hold_both_arguments(name: Seq<char>, key: Seq<char>, value: Seq<char>)
    requires
        !name.contains('['),
        whole(key),
        whole(value),
        forall|i: int| 0 <= i < key.len() ==> nesting(#[trigger] key[i]) == 0,
    ensures
        container(
            name,
            rust_type(key) + ", "@ + rust_type(value),
            rust_type(applied(name, key.push(',') + value)),
        ),
        convertible(key) && convertible(value) ==> convertible(applied(name, key.push(',') + value)),
{
    let inner = key.push(',') + value;
    let ty = applied(name, inner);
    taken_apart(name, inner);
    two_arguments(key, value, 0);
    untrimmed(key);
    untrimmed(value);
    let args = type_arguments(ty);
    assert(arguments(inner, 0, 0, 0, Seq::empty()) =~= seq![key, value]);
    assert(args =~= seq![key, value]);
    let types = rust_types(args, ty.len());
    assert(types =~= seq![rust_type(key), rust_type(value)]);
    assert(types.drop_last() =~= seq![rust_type(key)]);
    assert(joined(types.drop_last(), ", "@) == rust_type(key));
    assert(joined(types, ", "@) == rust_type(key) + ", "@ + rust_type(value));
    names_apart(name);
    frames(name, rust_type(key) + ", "@ + rust_type(value));
}

proof fn taken_apart(name: Seq<char>, inner: Seq<char>)
    requires
        !name.contains('['),
        inner.len() > 0,
    ensures
        built_in_type(applied(name, inner)) is None,
        char_place(applied(name, inner), '[', 0) == Some(name.len() as int),
        applied(name, inner).take(name.len() as int) == name,
        bracketed(applied(name, inner)) == inner,
        applied(name, inner).last() == ']',
{
    let ty = applied(name, inner);
    assert(ty[name.len() as int] == '[');
    assert(ty.contains('['));
    told_apart(ty);
    assert forall|i: int| 0 <= i < name.len() implies ty[i] != '[' by {
        assert(ty[i] == name[i]);
        assert(name.contains(name[i]));
    }
    first_at(ty, '[', 0, name.len() as int);
    assert(ty.take(name.len() as int) =~= name);
    assert(ty.subrange(name.len() as int + 1, ty.len() - 1) =~= inner);
}

proof fn one_argument(item: Seq<char>, at: int)
    requires
        item.len() > 0,
        !item.contains(','),
        0 <= at <= item.len(),
    ensures
        forall|depth: int| #[trigger] arguments(item, at, 0, depth, Seq::empty()) == seq![item],
    decreases item.len() - at,
{
    assert forall|depth: int| #[trigger] arguments(item, at, 0, depth, Seq::empty()) == seq![item] by {
        if at < item.len() {
            one_argument(item, at + 1);
            assert(item.contains(item[at]));
            assert(arguments(item, at + 1, 0, depth + nesting(item[at]), Seq::empty()) == seq![item]);
        } else {
            assert(item.subrange(0, item.len() as int) =~= item);
            assert(Seq::<Seq<char>>::empty().push(item) =~= seq![item]);
        }
    }
}

proof fn two_arguments(key: Seq<char>, value: Seq<char>, at: int)
    requires
        value.len() > 0,
        !key.contains(','),
        !value.contains(','),
        forall|i: int| 0 <= i < key.len() ==> nesting(#[trigger] key[i]) == 0,
        0 <= at <= key.len(),
    ensures
        arguments(key.push(',') + value, at, 0, 0, Seq::empty()) == seq![key, value],
    decreases key.len() - at,
{
    let text = key.push(',') + value;
    if at < key.len() {
        assert(text[at] == key[at]);
        assert(key.contains(key[at]));
        two_arguments(key, value, at + 1);
    } else {
        assert(text[at] == ',');
        assert(text.subrange(0, at) =~= key);
        assert(text.subrange(at + 1, text.len() as int) =~= value);
        last_argument(text, value, at + 1, at + 1, 0, seq![key]);
        assert(Seq::<Seq<char>>::empty().push(key) =~= seq![key]);
        assert(seq![key].push(value) =~= seq![key, value]);
    }
}

proof fn last_argument(text: Seq<char>, value: Seq<char>, at: int, start: int, depth: int, done: Seq<Seq<char>>)
    requires
        0 <= start <= at <= text.len(),
        start < text.len(),
        text.subrange(start, text.len() as int) == value,
        !value.contains(','),
    ensures
        arguments(text, at, start, depth, done) == done.push(value),
    decreases text.len() - at,
{
    if at < text.len() {
        assert(value[at - start] == text[at]);
        assert(value.contains(text[at]));
        last_argument(text, value, at + 1, start, depth + nesting(text[at]), done);
    }
}

proof fn untrimmed(text: Seq<char>)
    requires
        whole(text),
    ensures
        trimmed(text) == text,
{
}

proof fn names_apart(name: Seq<char>)
    ensures
        name == "List"@ ==> name != "Dict"@ && name != "Set"@ && name != "Option"@ && name != "Result"@ && name
            != "Tuple"@,
        name == "Dict"@ ==> name != "Set"@ && name != "Option"@ && name != "Result"@ && name != "Tuple"@,
        name == "Set"@ ==> name != "Option"@ && name != "Result"@ && name != "Tuple"@,
        name == "Tuple"@ ==> name != "Option"@ && name != "Result"@,
{
    reveal_strlit("List");
    reveal_strlit("Dict");
    reveal_strlit("Set");
    reveal_strlit("Option");
    reveal_strlit("Result");
    reveal_strlit("Tuple");
    assert(name == "List"@ ==> name[0] == 'L');
    assert(name == "Dict"@ ==> name[0] == 'D');
    assert(name == "Set"@ ==> name[0] == 'S');
    assert(name == "Option"@ ==> name[0] == 'O');
    assert(name == "Result"@ ==> name[0] == 'R');
    assert(name == "Tuple"@ ==> name[0] == 'T');
}

/// Options and results keep their names.
proof fn frames(name: Seq<char>, inside: Seq<char>)
    ensures
        name == "Option"@ ==> "Option<"@ + inside + ">"@ == name + "<"@ + inside + ">"@,
        name == "Result"@ ==> "Result<"@ + inside + ">"@ == name + "<"@ + inside + ">"@,
{
    reveal_strlit("Option");
    reveal_strlit("Option<");
    reveal_strlit("Result");
    reveal_strlit("Result<");
    reveal_strlit("<");
    assert("Option<"@ =~= "Option"@ + "<"@);
    assert("Result<"@ =~= "Result"@ + "<"@);
}

} // verus!
