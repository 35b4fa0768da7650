//! What holds of inspected bindings.

use crate::ast::Span;
use crate::cli::binding_inspect::{
    binding_before, first_unanalysed, gathered, inspected, path_before, reported, span_facts, BindingFacts,
    CBindingDescriptor, CheckedModule, TypeFacts,
};
use crate::cli::binding_text::{report_text, type_text};
use crate::cli::places::place;
use crate::order::comes_before;
use crate::text::texts;
use vstd::prelude::*;
use vstd::utf8::encode_utf8;

verus! {

broadcast use vstd::string::group_string_axioms;

/// Modules are ordered by the first name in which their paths differ, and a module comes before those below it. Bindings
/// are ordered by module, in one module by name, and under one name by file.
pub proof fn law_bindings_go_by_module_name_and_file(
    common: Seq<Seq<char>>,
    a: Seq<Seq<char>>,
    b: Seq<Seq<char>>,
    x: BindingFacts,
    y: BindingFacts,
)
    ensures
        a.len() > 0 && b.len() > 0 && a[0] != b[0] ==> (path_before(common + a, common + b) <==> comes_before(
            a[0],
            b[0],
        )),
        b.len() > 0 ==> path_before(common, common + b) && !path_before(common + b, common),
        x.module != y.module ==> (binding_before(x, y) <==> path_before(x.module, y.module)),
        x.module == y.module && x.declared.name != y.declared.name ==> (binding_before(x, y) <==> comes_before(
            x.declared.name,
            y.declared.name,
        )),
        x.module == y.module && x.declared.name == y.declared.name ==> (binding_before(x, y) <==> comes_before(
            x.source.file,
            y.source.file,
        )),
    decreases common.len(),
{
    if common.len() == 0 {
        assert(common + a =~= a && common + b =~= b);
        assert(common =~= Seq::<Seq<char>>::empty());
    } else {
        let rest = common.drop_first();
        law_bindings_go_by_module_name_and_file(rest, a, b, x, y);
        assert((common + a).drop_first() =~= rest + a);
        assert((common + b).drop_first() =~= rest + b);
    }
}

/// A binding's place lies in its source and does not end before it starts: a span inside the source is kept, and its
/// lines and columns are those of its ends.
pub proof fn law_places_lie_in_the_source(file: Seq<char>, source: Seq<char>, span: Span)
    ensures
        ({
            let facts = span_facts(file, source, span);
            let length = encode_utf8(source).len();
            &&& facts.file == file
            &&& 0 <= facts.start <= facts.end <= length
            &&& span.start <= span.end <= length ==> facts.start == span.start && facts.end == span.end
            &&& span.start > length ==> facts.start == length && facts.end == length
            &&& facts.from == place(source, facts.start) && facts.to == place(source, facts.end)
        }),
{
}

/// A report names the module, the file and everything that the binding declares.
pub proof fn law_reports_say_what_is_declared(module: CheckedModule, descriptor: CBindingDescriptor)
    ensures
        ({
            let facts = reported(module, descriptor);
            &&& facts.module == texts(module.path_segments@)
            &&& facts.source.file == module.file_path@
            &&& facts.declared.name == descriptor.class_name@
            &&& facts.declared.header == descriptor.header@
            &&& facts.declared.system_library == descriptor.system_library@
            &&& facts.declared.symbols.len() == descriptor.symbols@.len()
            &&& facts.declared.enums.len() == descriptor.enums@.len()
            &&& facts.declared.structs.len() == descriptor.structs@.len()
            &&& forall|i: int|
                0 <= i < descriptor.symbols@.len() ==> (#[trigger] facts.declared.symbols[i]).names.name
                    == descriptor.symbols@[i].name@ && facts.declared.symbols[i].names.native
                    == descriptor.symbols@[i].native@ && facts.declared.symbols[i].parameters.len()
                    == descriptor.symbols@[i].parameters@.len()
            &&& forall|i: int|
                0 <= i < descriptor.enums@.len() ==> (#[trigger] facts.declared.enums[i]).name
                    == descriptor.enums@[i].name@ && facts.declared.enums[i].carrier == descriptor.enums@[i].carrier@
                    && facts.declared.enums[i].variants.len() == descriptor.enums@[i].variants@.len()
            &&& forall|i: int|
                0 <= i < descriptor.structs@.len() ==> (#[trigger] facts.declared.structs[i]).names.name
                    == descriptor.structs@[i].name@ && facts.declared.structs[i].names.native
                    == descriptor.structs@[i].native@ && facts.declared.structs[i].fields.len()
                    == descriptor.structs@[i].fields@.len()
        }),
{
}

/// Inspection fails exactly where a module was not analysed, and names the first one. Every binding of every module is
/// gathered, one for one and module by module.
pub proof fn law_every_module_is_inspected(modules: Seq<CheckedModule>)
    ensures
        inspected(modules) is Err <==> exists|i: int| 0 <= i < modules.len() && (#[trigger] modules[i]).bindings is None,
        modules.len() > 0 && modules.last().bindings is Some ==> gathered(modules, modules.len() as int).len()
            == gathered(modules, modules.len() - 1).len() + modules.last().bindings->Some_0@.len(),
{
    unanalysed_agrees(modules, 0);
}

proof fn unanalysed_agrees(modules: Seq<CheckedModule>, from: int)
    requires
        0 <= from,
    ensures
        match first_unanalysed(modules, from) {
            Some(at) => from <= at < modules.len() && modules[at].bindings is None && forall|i: int|
                from <= i < at ==> (#[trigger] modules[i]).bindings is Some,
            None => forall|i: int| from <= i < modules.len() ==> (#[trigger] modules[i]).bindings is Some,
        },
    decreases modules.len() - from,
{
    if from < modules.len() && modules[from].bindings is Some {
        unanalysed_agrees(modules, from + 1);
    }
}

/// A binding that the modules before a count declare is among the gathered ones.
pub proof fn law_every_binding_is_gathered(modules: Seq<CheckedModule>, count: int, module: int, at: int)
    requires
        0 <= module < count <= modules.len(),
        modules[module].bindings is Some,
        0 <= at < modules[module].bindings->Some_0@.len(),
    ensures
        gathered(modules, count).contains(fact_of(modules, module, at)),
    decreases count,
{
    let before = gathered(modules, count - 1);
    let all = gathered(modules, count);
    let fact = fact_of(modules, module, at);
    if module == count - 1 {
        assert(all[before.len() + at] == fact);
    } else {
        law_every_binding_is_gathered(modules, count - 1, module, at);
        let i = choose|i: int| 0 <= i < before.len() && before[i] == fact;
        assert(all[i] == fact);
    }
}

/// The report of one of the bindings of a module.
pub open spec fn fact_of(modules: Seq<CheckedModule>, module: int, at: int) -> BindingFacts {
    reported(modules[module], modules[module].bindings->Some_0@[at])
}

/// A pointer is written by whether it is mutable and what it points to, and the absence of a value as `None`.
pub proof fn law_pointers_are_written_by_mutability(ty: TypeFacts)
    ensures
        match ty {
            TypeFacts::Scalar(spelling) => type_text(ty) == spelling,
            TypeFacts::Pointer(mutable, pointee) => type_text(ty) == (if mutable {
                "c.MutPtr"@
            } else {
                "c.ConstPtr"@
            }) + "["@ + type_text(*pointee) + "]"@,
            TypeFacts::Struct(name) => type_text(ty) == name,
            TypeFacts::Void => type_text(ty) == "None"@,
        },
        report_text(Seq::empty()) == "No checked C bindings.\n"@,
{
}

} // verus!
