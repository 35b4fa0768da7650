//! The summary of a report on C bindings.

use crate::cli::binding_inspect::{
    binding_facts, BindingFacts, BindingInspectionReport, BindingReport, BindingTypeReport, EnumFacts, EnumReport,
    NamePair, StructFacts, StructReport, SymbolFacts, SymbolReport, TypeFacts, TypedName,
};
use crate::text::{decimal, join, joined, natural_text, texts};
use vstd::prelude::*;

verus! {

broadcast use vstd::string::group_string_axioms;

/// How a type is written.
pub open spec fn type_text(ty: TypeFacts) -> Seq<char>
    decreases ty,
{
    match ty {
        TypeFacts::Scalar(spelling) => spelling,
        TypeFacts::Pointer(mutable, pointee) => (if mutable {
            "c.MutPtr"@
        } else {
            "c.ConstPtr"@
        }) + "["@ + type_text(*pointee) + "]"@,
        TypeFacts::Struct(name) => name,
        TypeFacts::Void => "None"@,
    }
}

/// How names with types are written.
pub open spec fn typed_name_texts(names: Seq<TypedName>) -> Seq<Seq<char>> {
    Seq::new(names.len(), |i: int| names[i].name + ": "@ + type_text(names[i].ty))
}

/// The line of a symbol.
pub open spec fn symbol_line(symbol: SymbolFacts) -> Seq<char> {
    "  symbol "@ + symbol.names.name + "("@ + joined(typed_name_texts(symbol.parameters), ", "@) + ") -> "@ + type_text(
        symbol.return_type,
    ) + " [native: "@ + symbol.names.native + "]\n"@
}

/// The lines of the first symbols.
pub open spec fn symbol_lines(symbols: Seq<SymbolFacts>, count: int) -> Seq<char>
    decreases count,
{
    if count <= 0 {
        Seq::empty()
    } else {
        symbol_lines(symbols, count - 1) + symbol_line(symbols[count - 1])
    }
}

/// The lines of the first constants of an enum.
pub open spec fn variant_lines(variants: Seq<NamePair>, count: int) -> Seq<char>
    decreases count,
{
    if count <= 0 {
        Seq::empty()
    } else {
        variant_lines(variants, count - 1) + ("    "@ + variants[count - 1].name + " = "@ + variants[count - 1].native
            + "\n"@)
    }
}

/// The lines of the first enums.
pub open spec fn enum_lines(enums: Seq<EnumFacts>, count: int) -> Seq<char>
    decreases count,
{
    if count <= 0 {
        Seq::empty()
    } else {
        enum_lines(enums, count - 1) + ("  enum "@ + enums[count - 1].name + ": "@ + enums[count - 1].carrier + "\n"@
            + variant_lines(enums[count - 1].variants, enums[count - 1].variants.len() as int))
    }
}

/// The lines of the first fields of a structure.
pub open spec fn field_lines(fields: Seq<TypedName>, count: int) -> Seq<char>
    decreases count,
{
    if count <= 0 {
        Seq::empty()
    } else {
        field_lines(fields, count - 1) + ("    "@ + fields[count - 1].name + ": "@ + type_text(fields[count - 1].ty)
            + "\n"@)
    }
}

/// The lines of the first structures.
pub open spec fn struct_lines(structs: Seq<StructFacts>, count: int) -> Seq<char>
    decreases count,
{
    if count <= 0 {
        Seq::empty()
    } else {
        struct_lines(structs, count - 1) + ("  struct "@ + structs[count - 1].names.name + " [native: "@
            + structs[count - 1].names.native + "]\n"@ + field_lines(
            structs[count - 1].fields,
            structs[count - 1].fields.len() as int,
        ))
    }
}

/// The summary of a binding.
pub open spec fn binding_text(binding: BindingFacts) -> Seq<char> {
    "Binding "@ + binding.declared.name + " ("@ + joined(binding.module, "::"@) + ")\n  header: "@
        + binding.declared.header + "\n  link: c.system_library(\""@ + binding.declared.system_library
        + "\")\n  source: "@ + binding.source.file + ":"@ + decimal(binding.source.from.0) + ":"@ + decimal(
        binding.source.from.1,
    ) + "\n"@ + symbol_lines(binding.declared.symbols, binding.declared.symbols.len() as int) + enum_lines(
        binding.declared.enums,
        binding.declared.enums.len() as int,
    ) + struct_lines(binding.declared.structs, binding.declared.structs.len() as int)
}

/// The summaries of the first bindings.
pub open spec fn binding_texts(bindings: Seq<BindingFacts>, count: int) -> Seq<char>
    decreases count,
{
    if count <= 0 {
        Seq::empty()
    } else {
        binding_texts(bindings, count - 1) + binding_text(bindings[count - 1])
    }
}

/// The summary of a report.
pub open spec fn report_text(bindings: Seq<BindingFacts>) -> Seq<char> {
    if bindings.len() == 0 {
        "No checked C bindings.\n"@
    } else {
        binding_texts(bindings, bindings.len() as int)
    }
}

/// Writes a type.
pub fn format_binding_type(ty: &BindingTypeReport) -> (text: String)
    ensures
        text@ == type_text(ty.model()),
    decreases ty,
{
    match ty {
        BindingTypeReport::Scalar { spelling } => spelling.clone(),
        BindingTypeReport::Pointer { mutable, pointee } => {
            let constructor: &str = if *mutable {
                "c.MutPtr"
            } else {
                "c.ConstPtr"
            };
            constructor.to_owned().concat("[").concat(format_binding_type(pointee).as_str()).concat("]")
        },
        BindingTypeReport::Struct { name } => name.clone(),
        BindingTypeReport::Void => "None".to_owned(),
    }
}

fn symbol_text(symbol: &SymbolReport) -> (text: String)
    ensures
        text@ == symbol_line(symbol.model()),
{
    let mut parts: Vec<String> = Vec::new();
    let mut i: usize = 0;
    while i < symbol.parameters.len()
        invariant
            i <= symbol.parameters@.len(),
            parts@.len() == i,
            forall|j: int|
                0 <= j < i ==> (#[trigger] parts@[j])@ == typed_name_texts(symbol.model().parameters)[j],
        decreases symbol.parameters@.len() - i,
    {
        let part: String = symbol.parameters[i].name.clone().concat(": ").concat(
            format_binding_type(&symbol.parameters[i].ty).as_str(),
        );
        parts.push(part);
        i += 1;
    }
    proof {
        assert(texts(parts@) =~= typed_name_texts(symbol.model().parameters));
    }
    "  symbol ".to_owned().concat(symbol.name.as_str()).concat("(").concat(join(&parts, ", ").as_str()).concat(
        ") -> ",
    ).concat(format_binding_type(&symbol.return_type).as_str()).concat(" [native: ").concat(
        symbol.native.as_str(),
    ).concat("]\n")
}

fn enum_text(enumeration: &EnumReport) -> (text: String)
    ensures
        text@ == "  enum "@ + enumeration.name@ + ": "@ + enumeration.carrier@ + "\n"@ + variant_lines(
            enumeration.model().variants,
            enumeration.variants@.len() as int,
        ),
{
    let mut lines: String = String::new();
    let mut i: usize = 0;
    proof {
        assert(lines@ =~= Seq::empty());
    }
    while i < enumeration.variants.len()
        invariant
            i <= enumeration.variants@.len(),
            lines@ == variant_lines(enumeration.model().variants, i as int),
        decreases enumeration.variants@.len() - i,
    {
        let line: String = "    ".to_owned().concat(enumeration.variants[i].name.as_str()).concat(" = ").concat(
            enumeration.variants[i].native.as_str(),
        ).concat("\n");
        lines = lines.concat(line.as_str());
        i += 1;
    }
    "  enum ".to_owned().concat(enumeration.name.as_str()).concat(": ").concat(enumeration.carrier.as_str()).concat(
        "\n",
    ).concat(lines.as_str())
}

fn struct_text(structure: &StructReport) -> (text: String)
    ensures
        text@ == "  struct "@ + structure.name@ + " [native: "@ + structure.native@ + "]\n"@ + field_lines(
            structure.model().fields,
            structure.fields@.len() as int,
        ),
{
    let mut lines: String = String::new();
    let mut i: usize = 0;
    proof {
        assert(lines@ =~= Seq::empty());
    }
    while i < structure.fields.len()
        invariant
            i <= structure.fields@.len(),
            lines@ == field_lines(structure.model().fields, i as int),
        decreases structure.fields@.len() - i,
    {
        let line: String = "    ".to_owned().concat(structure.fields[i].name.as_str()).concat(": ").concat(
            format_binding_type(&structure.fields[i].ty).as_str(),
        ).concat("\n");
        lines = lines.concat(line.as_str());
        i += 1;
    }
    "  struct ".to_owned().concat(structure.name.as_str()).concat(" [native: ").concat(
        structure.native.as_str(),
    ).concat("]\n").concat(lines.as_str())
}

fn one_binding_text(binding: &BindingReport) -> (text: String)
    ensures
        text@ == binding_text(binding.model()),
{
    let mut symbols: String = String::new();
    let mut i: usize = 0;
    proof {
        assert(symbols@ =~= Seq::empty());
    }
    while i < binding.symbols.len()
        invariant
            i <= binding.symbols@.len(),
            symbols@ == symbol_lines(binding.model().declared.symbols, i as int),
        decreases binding.symbols@.len() - i,
    {
        symbols = symbols.concat(symbol_text(&binding.symbols[i]).as_str());
        i += 1;
    }
    let mut enums: String = String::new();
    let mut i: usize = 0;
    proof {
        assert(enums@ =~= Seq::empty());
    }
    while i < binding.enums.len()
        invariant
            i <= binding.enums@.len(),
            enums@ == enum_lines(binding.model().declared.enums, i as int),
        decreases binding.enums@.len() - i,
    {
        enums = enums.concat(enum_text(&binding.enums[i]).as_str());
        i += 1;
    }
    let mut structs: String = String::new();
    let mut i: usize = 0;
    proof {
        assert(structs@ =~= Seq::empty());
    }
    while i < binding.structs.len()
        invariant
            i <= binding.structs@.len(),
            structs@ == struct_lines(binding.model().declared.structs, i as int),
        decreases binding.structs@.len() - i,
    {
        structs = structs.concat(struct_text(&binding.structs[i]).as_str());
        i += 1;
    }
    "Binding ".to_owned().concat(binding.name.as_str()).concat(" (").concat(
        join(&binding.module, "::").as_str(),
    ).concat(")\n  header: ").concat(binding.header.as_str()).concat("\n  link: c.system_library(\"").concat(
        binding.system_library.as_str(),
    ).concat("\")\n  source: ").concat(binding.source.file.as_str()).concat(":").concat(
        natural_text(binding.source.start_line as u64).as_str(),
    ).concat(":").concat(natural_text(binding.source.start_column as u64).as_str()).concat("\n").concat(
        symbols.as_str(),
    ).concat(enums.as_str()).concat(structs.as_str())
}

/// Writes the summary of a report.
pub fn render_binding_inspection_text(report: &BindingInspectionReport) -> (text: String)
    ensures
        text@ == report_text(binding_facts(report.bindings@)),
{
    if report.bindings.len() == 0 {
        return "No checked C bindings.\n".to_owned();
    }
    let mut text: String = String::new();
    let mut i: usize = 0;
    proof {
        assert(text@ =~= Seq::empty());
    }
    while i < report.bindings.len()
        invariant
            i <= report.bindings@.len(),
            text@ == binding_texts(binding_facts(report.bindings@), i as int),
        decreases report.bindings@.len() - i,
    {
        text = text.concat(one_binding_text(&report.bindings[i]).as_str());
        i += 1;
    }
    text
}

} // verus!
