//! Reports on the C bindings that a program declares.

use crate::ast::Span;
use crate::cli::binding_text::{render_binding_inspection_text, report_text};
use crate::cli::places::{line_column_for_offset, place};
use crate::order::{comes_before, lemma_total, lemma_transitive, text_before};
use crate::text::{same_text, texts};
use vstd::prelude::*;
use vstd::utf8::encode_utf8;

verus! {

broadcast use vstd::string::group_string_axioms;

/// The version of the report's form.
pub const BINDING_INSPECTION_SCHEMA_VERSION: u32 = 1;

// ---------------------------------------------------------------------------
// Declarations
// ---------------------------------------------------------------------------

/// A type of a C declaration.
#[derive(Debug)]
#[allow(inconsistent_fields)]
pub enum CBindingType {
    /// A scalar, by its spelling.
    Scalar(String),
    /// A pointer.
    Pointer {
        /// Whether it can be written through.
        mutable: bool,
        /// What it points to.
        pointee: Box<CBindingType>,
    },
    /// A structure, by its name.
    Struct(String),
    /// No value.
    Void,
}

/// A parameter of a C symbol.
#[derive(Debug)]
pub struct CBindingParameter {
    /// The name.
    pub name: String,
    /// The type.
    pub ty: CBindingType,
}

/// A C symbol.
#[derive(Debug)]
pub struct CBindingSymbol {
    /// The name in the program.
    pub name: String,
    /// The name in the library.
    pub native: String,
    /// The parameters.
    pub parameters: Vec<CBindingParameter>,
    /// The type of the result.
    pub return_type: CBindingType,
}

/// A constant of a C enum.
#[derive(Debug)]
pub struct CBindingVariant {
    /// The name in the program.
    pub name: String,
    /// The name in the header.
    pub native: String,
}

/// A C enum.
#[derive(Debug)]
pub struct CBindingEnum {
    /// The name.
    pub name: String,
    /// The spelling of the scalar that carries it.
    pub carrier: String,
    /// The constants.
    pub variants: Vec<CBindingVariant>,
}

/// A field of a C structure.
#[derive(Debug)]
pub struct CBindingField {
    /// The name.
    pub name: String,
    /// The type.
    pub ty: CBindingType,
}

/// A C structure.
#[derive(Debug)]
pub struct CBindingStruct {
    /// The name in the program.
    pub name: String,
    /// The name in the header.
    pub native: String,
    /// The fields.
    pub fields: Vec<CBindingField>,
}

/// A checked binding.
#[derive(Debug)]
pub struct CBindingDescriptor {
    /// The name of the class that declares it.
    pub class_name: String,
    /// The header.
    pub header: String,
    /// The library that is linked.
    pub system_library: String,
    /// Where it is declared.
    pub span: Span,
    /// The symbols.
    pub symbols: Vec<CBindingSymbol>,
    /// The enums.
    pub enums: Vec<CBindingEnum>,
    /// The structures.
    pub structs: Vec<CBindingStruct>,
}

/// A module with the bindings that were checked in it, where it was analysed.
#[derive(Debug)]
pub struct CheckedModule {
    /// The names of the module's path.
    pub path_segments: Vec<String>,
    /// The file.
    pub file_path: String,
    /// The source.
    pub source: String,
    /// The bindings.
    pub bindings: Option<Vec<CBindingDescriptor>>,
}

// ---------------------------------------------------------------------------
// Reports
// ---------------------------------------------------------------------------

/// The output of an inspection.
#[derive(Debug, Clone, Copy, PartialEq, Eq, Structural)]
pub enum BindingInspectionFormat {
    /// A summary to be read.
    Text,
    /// Facts for tools.
    Json,
}

/// A C type of a report.
#[derive(Debug)]
#[allow(inconsistent_fields)]
pub enum BindingTypeReport {
    /// A scalar.
    Scalar {
        /// Its spelling.
        spelling: String,
    },
    /// A pointer.
    Pointer {
        /// Whether it can be written through.
        mutable: bool,
        /// What it points to.
        pointee: Box<BindingTypeReport>,
    },
    /// A structure.
    Struct {
        /// Its name.
        name: String,
    },
    /// No value.
    Void,
}

/// A parameter of a report.
#[derive(Debug)]
pub struct ParameterReport {
    /// The name.
    pub name: String,
    /// The type.
    pub ty: BindingTypeReport,
}

/// A symbol of a report.
#[derive(Debug)]
pub struct SymbolReport {
    /// The name in the program.
    pub name: String,
    /// The name in the library.
    pub native: String,
    /// The parameters.
    pub parameters: Vec<ParameterReport>,
    /// The type of the result.
    pub return_type: BindingTypeReport,
}

/// A constant of an enum of a report.
#[derive(Debug)]
pub struct EnumVariantReport {
    /// The name in the program.
    pub name: String,
    /// The name in the header.
    pub native: String,
}

/// An enum of a report.
#[derive(Debug)]
pub struct EnumReport {
    /// The name.
    pub name: String,
    /// The spelling of the scalar that carries it.
    pub carrier: String,
    /// The constants.
    pub variants: Vec<EnumVariantReport>,
}

/// A field of a structure of a report.
#[derive(Debug)]
pub struct StructFieldReport {
    /// The name.
    pub name: String,
    /// The type.
    pub ty: BindingTypeReport,
}

/// A structure of a report.
#[derive(Debug)]
pub struct StructReport {
    /// The name in the program.
    pub name: String,
    /// The name in the header.
    pub native: String,
    /// The fields.
    pub fields: Vec<StructFieldReport>,
}

/// Where a binding is declared, in bytes and for an editor.
#[derive(Debug)]
pub struct BindingSourceSpan {
    /// The file.
    pub file: String,
    /// The first byte.
    pub start: usize,
    /// The byte behind the last.
    pub end: usize,
    /// The line of the first byte.
    pub start_line: usize,
    /// The column of the first byte.
    pub start_column: usize,
    /// The line of the byte behind the last.
    pub end_line: usize,
    /// The column of the byte behind the last.
    pub end_column: usize,
}

/// A binding of a report.
#[derive(Debug)]
pub struct BindingReport {
    /// The names of the module's path.
    pub module: Vec<String>,
    /// The name of the class that declares it.
    pub name: String,
    /// The header.
    pub header: String,
    /// The library that is linked.
    pub system_library: String,
    /// Where it is declared.
    pub source: BindingSourceSpan,
    /// The symbols.
    pub symbols: Vec<SymbolReport>,
    /// The enums.
    pub enums: Vec<EnumReport>,
    /// The structures.
    pub structs: Vec<StructReport>,
}

/// A report on the bindings of a program.
#[derive(Debug)]
pub struct BindingInspectionReport {
    /// The version of the report's form.
    pub schema_version: u32,
    /// The bindings, by module, name and file.
    pub bindings: Vec<BindingReport>,
}

/// What an inspection gives.
#[derive(Debug)]
pub enum BindingInspection {
    /// The summary.
    Text(String),
    /// The report that is written for tools.
    Json(BindingInspectionReport),
}

// ---------------------------------------------------------------------------
// What declarations and reports say
// ---------------------------------------------------------------------------

/// What a C type is.
pub ghost enum TypeFacts {
    /// A scalar.
    Scalar(Seq<char>),
    /// A pointer.
    Pointer(bool, Box<TypeFacts>),
    /// A structure.
    Struct(Seq<char>),
    /// No value.
    Void,
}

/// A name with a type.
pub ghost struct TypedName {
    /// The name.
    pub name: Seq<char>,
    /// The type.
    pub ty: TypeFacts,
}

/// A name in the program with one outside it.
pub ghost struct NamePair {
    /// The name in the program.
    pub name: Seq<char>,
    /// The other name.
    pub native: Seq<char>,
}

/// What a symbol is.
#[verifier::ext_equal]
pub ghost struct SymbolFacts {
    /// The names.
    pub names: NamePair,
    /// The parameters.
    pub parameters: Seq<TypedName>,
    /// The type of the result.
    pub return_type: TypeFacts,
}

/// What an enum is.
#[verifier::ext_equal]
pub ghost struct EnumFacts {
    /// The name.
    pub name: Seq<char>,
    /// The scalar that carries it.
    pub carrier: Seq<char>,
    /// The constants.
    pub variants: Seq<NamePair>,
}

/// What a structure is.
#[verifier::ext_equal]
pub ghost struct StructFacts {
    /// The names.
    pub names: NamePair,
    /// The fields.
    pub fields: Seq<TypedName>,
}

/// What a binding declares.
#[verifier::ext_equal]
pub ghost struct DeclaredFacts {
    /// The name.
    pub name: Seq<char>,
    /// The header.
    pub header: Seq<char>,
    /// The library.
    pub system_library: Seq<char>,
    /// The symbols.
    pub symbols: Seq<SymbolFacts>,
    /// The enums.
    pub enums: Seq<EnumFacts>,
    /// The structures.
    pub structs: Seq<StructFacts>,
}

/// Where a binding is declared.
pub ghost struct SpanFacts {
    /// The file.
    pub file: Seq<char>,
    /// The first byte.
    pub start: int,
    /// The byte behind the last.
    pub end: int,
    /// The line and the column of the first byte.
    pub from: (nat, nat),
    /// The line and the column of the byte behind the last.
    pub to: (nat, nat),
}

/// What a binding of a report is.
#[verifier::ext_equal]
pub ghost struct BindingFacts {
    /// The names of the module's path.
    pub module: Seq<Seq<char>>,
    /// Where it is declared.
    pub source: SpanFacts,
    /// What it declares.
    pub declared: DeclaredFacts,
}

impl CBindingType {
    /// What the type is.
    pub open spec fn model(self) -> TypeFacts
        decreases self,
    {
        match self {
            CBindingType::Scalar(spelling) => TypeFacts::Scalar(spelling@),
            CBindingType::Pointer { mutable, pointee } => TypeFacts::Pointer(mutable, Box::new(pointee.model())),
            CBindingType::Struct(name) => TypeFacts::Struct(name@),
            CBindingType::Void => TypeFacts::Void,
        }
    }
}

impl CBindingSymbol {
    /// What the symbol is.
    pub open spec fn model(self) -> SymbolFacts {
        SymbolFacts {
            names: NamePair { name: self.name@, native: self.native@ },
            parameters: Seq::new(
                self.parameters@.len(),
                |i: int| TypedName { name: self.parameters@[i].name@, ty: self.parameters@[i].ty.model() },
            ),
            return_type: self.return_type.model(),
        }
    }
}

impl CBindingEnum {
    /// What the enum is.
    pub open spec fn model(self) -> EnumFacts {
        EnumFacts {
            name: self.name@,
            carrier: self.carrier@,
            variants: Seq::new(
                self.variants@.len(),
                |i: int| NamePair { name: self.variants@[i].name@, native: self.variants@[i].native@ },
            ),
        }
    }
}

impl CBindingStruct {
    /// What the structure is.
    pub open spec fn model(self) -> StructFacts {
        StructFacts {
            names: NamePair { name: self.name@, native: self.native@ },
            fields: Seq::new(
                self.fields@.len(),
                |i: int| TypedName { name: self.fields@[i].name@, ty: self.fields@[i].ty.model() },
            ),
        }
    }
}

impl CBindingDescriptor {
    /// What the binding declares.
    pub open spec fn model(self) -> DeclaredFacts {
        DeclaredFacts {
            name: self.class_name@,
            header: self.header@,
            system_library: self.system_library@,
            symbols: Seq::new(self.symbols@.len(), |i: int| self.symbols@[i].model()),
            enums: Seq::new(self.enums@.len(), |i: int| self.enums@[i].model()),
            structs: Seq::new(self.structs@.len(), |i: int| self.structs@[i].model()),
        }
    }
}

impl BindingTypeReport {
    /// What the type is.
    pub open spec fn model(self) -> TypeFacts
        decreases self,
    {
        match self {
            BindingTypeReport::Scalar { spelling } => TypeFacts::Scalar(spelling@),
            BindingTypeReport::Pointer { mutable, pointee } => TypeFacts::Pointer(
                mutable,
                Box::new(pointee.model()),
            ),
            BindingTypeReport::Struct { name } => TypeFacts::Struct(name@),
            BindingTypeReport::Void => TypeFacts::Void,
        }
    }
}

impl SymbolReport {
    /// What the symbol is.
    pub open spec fn model(self) -> SymbolFacts {
        SymbolFacts {
            names: NamePair { name: self.name@, native: self.native@ },
            parameters: Seq::new(
                self.parameters@.len(),
                |i: int| TypedName { name: self.parameters@[i].name@, ty: self.parameters@[i].ty.model() },
            ),
            return_type: self.return_type.model(),
        }
    }
}

impl EnumReport {
    /// What the enum is.
    pub open spec fn model(self) -> EnumFacts {
        EnumFacts {
            name: self.name@,
            carrier: self.carrier@,
            variants: Seq::new(
                self.variants@.len(),
                |i: int| NamePair { name: self.variants@[i].name@, native: self.variants@[i].native@ },
            ),
        }
    }
}

impl StructReport {
    /// What the structure is.
    pub open spec fn model(self) -> StructFacts {
        StructFacts {
            names: NamePair { name: self.name@, native: self.native@ },
            fields: Seq::new(
                self.fields@.len(),
                |i: int| TypedName { name: self.fields@[i].name@, ty: self.fields@[i].ty.model() },
            ),
        }
    }
}

impl BindingSourceSpan {
    /// Where the binding is declared.
    pub open spec fn model(self) -> SpanFacts {
        SpanFacts {
            file: self.file@,
            start: self.start as int,
            end: self.end as int,
            from: (self.start_line as nat, self.start_column as nat),
            to: (self.end_line as nat, self.end_column as nat),
        }
    }
}

impl BindingReport {
    /// What the binding is.
    pub open spec fn model(self) -> BindingFacts {
        BindingFacts {
            module: texts(self.module@),
            source: self.source.model(),
            declared: DeclaredFacts {
                name: self.name@,
                header: self.header@,
                system_library: self.system_library@,
                symbols: Seq::new(self.symbols@.len(), |i: int| self.symbols@[i].model()),
                enums: Seq::new(self.enums@.len(), |i: int| self.enums@[i].model()),
                structs: Seq::new(self.structs@.len(), |i: int| self.structs@[i].model()),
            },
        }
    }
}

/// What a run of bindings is.
pub open spec fn binding_facts(bindings: Seq<BindingReport>) -> Seq<BindingFacts> {
    Seq::new(bindings.len(), |i: int| bindings[i].model())
}

// ---------------------------------------------------------------------------
// From declarations to reports
// ---------------------------------------------------------------------------

/// The report of a type.
pub fn binding_type_report(ty: &CBindingType) -> (report: BindingTypeReport)
    ensures
        report.model() == ty.model(),
    decreases ty,
{
    match ty {
        CBindingType::Scalar(spelling) => BindingTypeReport::Scalar { spelling: spelling.clone() },
        CBindingType::Pointer { mutable, pointee } => {
            let inner: BindingTypeReport = binding_type_report(pointee);
            BindingTypeReport::Pointer { mutable: *mutable, pointee: Box::new(inner) }
        },
        CBindingType::Struct(name) => BindingTypeReport::Struct { name: name.clone() },
        CBindingType::Void => BindingTypeReport::Void,
    }
}

fn symbol_report(symbol: &CBindingSymbol) -> (report: SymbolReport)
    ensures
        report.model() == symbol.model(),
{
    let mut parameters: Vec<ParameterReport> = Vec::new();
    let mut i: usize = 0;
    while i < symbol.parameters.len()
        invariant
            i <= symbol.parameters@.len(),
            parameters@.len() == i,
            forall|j: int|
                0 <= j < i ==> (#[trigger] parameters@[j]).name@ == symbol.parameters@[j].name@
                    && parameters@[j].ty.model() == symbol.parameters@[j].ty.model(),
        decreases symbol.parameters@.len() - i,
    {
        let parameter: &CBindingParameter = &symbol.parameters[i];
        parameters.push(
            ParameterReport { name: parameter.name.clone(), ty: binding_type_report(&parameter.ty) },
        );
        i += 1;
    }
    let report = SymbolReport {
        name: symbol.name.clone(),
        native: symbol.native.clone(),
        parameters,
        return_type: binding_type_report(&symbol.return_type),
    };
    proof {
        assert(report.model().parameters =~= symbol.model().parameters);
    }
    report
}

fn enum_report(enumeration: &CBindingEnum) -> (report: EnumReport)
    ensures
        report.model() == enumeration.model(),
{
    let mut variants: Vec<EnumVariantReport> = Vec::new();
    let mut i: usize = 0;
    while i < enumeration.variants.len()
        invariant
            i <= enumeration.variants@.len(),
            variants@.len() == i,
            forall|j: int|
                0 <= j < i ==> (#[trigger] variants@[j]).name@ == enumeration.variants@[j].name@
                    && variants@[j].native@ == enumeration.variants@[j].native@,
        decreases enumeration.variants@.len() - i,
    {
        let variant: &CBindingVariant = &enumeration.variants[i];
        variants.push(EnumVariantReport { name: variant.name.clone(), native: variant.native.clone() });
        i += 1;
    }
    let report = EnumReport { name: enumeration.name.clone(), carrier: enumeration.carrier.clone(), variants };
    proof {
        assert(report.model().variants =~= enumeration.model().variants);
    }
    report
}

fn struct_report(structure: &CBindingStruct) -> (report: StructReport)
    ensures
        report.model() == structure.model(),
{
    let mut fields: Vec<StructFieldReport> = Vec::new();
    let mut i: usize = 0;
    while i < structure.fields.len()
        invariant
            i <= structure.fields@.len(),
            fields@.len() == i,
            forall|j: int|
                0 <= j < i ==> (#[trigger] fields@[j]).name@ == structure.fields@[j].name@ && fields@[j].ty.model()
                    == structure.fields@[j].ty.model(),
        decreases structure.fields@.len() - i,
    {
        let field: &CBindingField = &structure.fields[i];
        fields.push(StructFieldReport { name: field.name.clone(), ty: binding_type_report(&field.ty) });
        i += 1;
    }
    let report = StructReport { name: structure.name.clone(), native: structure.native.clone(), fields };
    proof {
        assert(report.model().fields =~= structure.model().fields);
    }
    report
}

/// The smaller of two numbers.
pub open spec fn smaller(a: int, b: int) -> int {
    if a < b {
        a
    } else {
        b
    }
}

/// Where a binding is declared. Offsets behind the end of the source are moved to its end, and an end before the
/// start is moved to the start.
pub open spec fn span_facts(file: Seq<char>, source: Seq<char>, span: Span) -> SpanFacts {
    let length = encode_utf8(source).len() as int;
    let start = smaller(span.start as int, length);
    let end = if smaller(span.end as int, length) < start {
        start
    } else {
        smaller(span.end as int, length)
    };
    SpanFacts { file, start, end, from: place(source, start), to: place(source, end) }
}

/// Where a binding is declared.
pub fn binding_source_span(file: &str, source: &str, span: Span) -> (found: BindingSourceSpan)
    requires
        encode_utf8(source@).len() < usize::MAX,
    ensures
        found.model() == span_facts(file@, source@, span),
{
    let length: usize = source.as_bytes().len();
    let start: usize = if span.start < length {
        span.start
    } else {
        length
    };
    let limited: usize = if span.end < length {
        span.end
    } else {
        length
    };
    let end: usize = if limited < start {
        start
    } else {
        limited
    };
    let (start_line, start_column): (usize, usize) = line_column_for_offset(source, start);
    let (end_line, end_column): (usize, usize) = line_column_for_offset(source, end);
    BindingSourceSpan { file: file.to_owned(), start, end, start_line, start_column, end_line, end_column }
}

/// What the report of a binding of a module is.
pub open spec fn reported(module: CheckedModule, descriptor: CBindingDescriptor) -> BindingFacts {
    BindingFacts {
        module: texts(module.path_segments@),
        source: span_facts(module.file_path@, module.source@, descriptor.span),
        declared: descriptor.model(),
    }
}

/// The report of a binding of a module.
pub fn binding_report(module: &CheckedModule, descriptor: &CBindingDescriptor) -> (report: BindingReport)
    requires
        encode_utf8(module.source@).len() < usize::MAX,
    ensures
        report.model() == reported(*module, *descriptor),
{
    let mut path: Vec<String> = Vec::new();
    let mut i: usize = 0;
    while i < module.path_segments.len()
        invariant
            i <= module.path_segments@.len(),
            path@.len() == i,
            forall|j: int| 0 <= j < i ==> (#[trigger] path@[j])@ == module.path_segments@[j]@,
        decreases module.path_segments@.len() - i,
    {
        path.push(module.path_segments[i].clone());
        i += 1;
    }
    let mut symbols: Vec<SymbolReport> = Vec::new();
    let mut i: usize = 0;
    while i < descriptor.symbols.len()
        invariant
            i <= descriptor.symbols@.len(),
            symbols@.len() == i,
            forall|j: int| 0 <= j < i ==> (#[trigger] symbols@[j]).model() == descriptor.symbols@[j].model(),
        decreases descriptor.symbols@.len() - i,
    {
        symbols.push(symbol_report(&descriptor.symbols[i]));
        i += 1;
    }
    let mut enums: Vec<EnumReport> = Vec::new();
    let mut i: usize = 0;
    while i < descriptor.enums.len()
        invariant
            i <= descriptor.enums@.len(),
            enums@.len() == i,
            forall|j: int| 0 <= j < i ==> (#[trigger] enums@[j]).model() == descriptor.enums@[j].model(),
        decreases descriptor.enums@.len() - i,
    {
        enums.push(enum_report(&descriptor.enums[i]));
        i += 1;
    }
    let mut structs: Vec<StructReport> = Vec::new();
    let mut i: usize = 0;
    while i < descriptor.structs.len()
        invariant
            i <= descriptor.structs@.len(),
            structs@.len() == i,
            forall|j: int| 0 <= j < i ==> (#[trigger] structs@[j]).model() == descriptor.structs@[j].model(),
        decreases descriptor.structs@.len() - i,
    {
        structs.push(struct_report(&descriptor.structs[i]));
        i += 1;
    }
    let report = BindingReport {
        module: path,
        name: descriptor.class_name.clone(),
        header: descriptor.header.clone(),
        system_library: descriptor.system_library.clone(),
        source: binding_source_span(module.file_path.as_str(), module.source.as_str(), descriptor.span),
        symbols,
        enums,
        structs,
    };
    proof {
        assert(texts(path@) =~= texts(module.path_segments@));
        assert(report.model().declared =~= descriptor.model());
    }
    report
}

// ---------------------------------------------------------------------------
// The order of bindings
// ---------------------------------------------------------------------------

/// Whether a path comes before another, name by name.
pub open spec fn path_before(a: Seq<Seq<char>>, b: Seq<Seq<char>>) -> bool
    decreases b.len(),
{
    if b.len() == 0 {
        false
    } else if a.len() == 0 {
        true
    } else if a[0] == b[0] {
        path_before(a.drop_first(), b.drop_first())
    } else {
        comes_before(a[0], b[0])
    }
}

/// Whether a binding comes before another: by module, then by name, then by file.
pub open spec fn binding_before(a: BindingFacts, b: BindingFacts) -> bool {
    if a.module != b.module {
        path_before(a.module, b.module)
    } else if a.declared.name != b.declared.name {
        comes_before(a.declared.name, b.declared.name)
    } else {
        comes_before(a.source.file, b.source.file)
    }
}

/// The place of a binding in an ordered run: behind every binding that it does not come before.
pub open spec fn binding_place(bindings: Seq<BindingFacts>, binding: BindingFacts) -> int
    decreases bindings.len(),
{
    if bindings.len() > 0 && binding_before(binding, bindings.last()) {
        binding_place(bindings.drop_last(), binding)
    } else {
        bindings.len() as int
    }
}

/// An ordered run with the bindings from one on in their places.
pub open spec fn in_order(done: Seq<BindingFacts>, given: Seq<BindingFacts>, from: int) -> Seq<BindingFacts>
    decreases given.len() - from,
{
    if from < 0 || from >= given.len() {
        done
    } else {
        in_order(done.insert(binding_place(done, given[from]), given[from]), given, from + 1)
    }
}

proof fn lemma_path_total(a: Seq<Seq<char>>, b: Seq<Seq<char>>)
    ensures
        a == b || path_before(a, b) || path_before(b, a),
        !(path_before(a, b) && path_before(b, a)),
        a == b ==> !path_before(a, b),
    decreases a.len(),
{
    if a.len() == 0 || b.len() == 0 {
        if a.len() == 0 && b.len() == 0 {
            assert(a =~= b);
        }
    } else if a[0] == b[0] {
        lemma_path_total(a.drop_first(), b.drop_first());
        if a.drop_first() == b.drop_first() {
            assert(a =~= seq![a[0]] + a.drop_first());
            assert(b =~= seq![b[0]] + b.drop_first());
        }
    } else {
        lemma_total(a[0], b[0]);
    }
}

proof fn lemma_path_transitive(a: Seq<Seq<char>>, b: Seq<Seq<char>>, c: Seq<Seq<char>>)
    requires
        path_before(a, b),
        path_before(b, c),
    ensures
        path_before(a, c),
    decreases a.len(),
{
    if a.len() > 0 {
        if a[0] == b[0] && b[0] == c[0] {
            lemma_path_transitive(a.drop_first(), b.drop_first(), c.drop_first());
        } else if a[0] != b[0] && b[0] != c[0] {
            lemma_transitive(a[0], b[0], c[0]);
            lemma_total(a[0], b[0]);
        }
    }
}

/// A binding that does not come before a second one, which does not come before a third one, does not come before the
/// third one.
proof fn lemma_bindings_chain(a: BindingFacts, b: BindingFacts, c: BindingFacts)
    requires
        !binding_before(b, a),
        !binding_before(c, b),
    ensures
        !binding_before(c, a),
{
    lemma_path_total(a.module, b.module);
    lemma_path_total(b.module, c.module);
    lemma_path_total(a.module, c.module);
    lemma_total(a.declared.name, b.declared.name);
    lemma_total(b.declared.name, c.declared.name);
    lemma_total(a.declared.name, c.declared.name);
    lemma_total(a.source.file, b.source.file);
    lemma_total(b.source.file, c.source.file);
    lemma_total(a.source.file, c.source.file);
    if path_before(a.module, b.module) && path_before(b.module, c.module) {
        lemma_path_transitive(a.module, b.module, c.module);
    }
    if comes_before(a.declared.name, b.declared.name) && comes_before(b.declared.name, c.declared.name) {
        lemma_transitive(a.declared.name, b.declared.name, c.declared.name);
    }
    if comes_before(a.source.file, b.source.file) && comes_before(b.source.file, c.source.file) {
        lemma_transitive(a.source.file, b.source.file, c.source.file);
    }
}

/// Whether no binding of a run comes before one that stands before it.
pub open spec fn is_ordered(bindings: Seq<BindingFacts>) -> bool {
    forall|i: int, j: int|
        0 <= i < j < bindings.len() ==> !binding_before(#[trigger] bindings[j], #[trigger] bindings[i])
}

proof fn lemma_place(bindings: Seq<BindingFacts>, binding: BindingFacts)
    requires
        is_ordered(bindings),
    ensures
        0 <= binding_place(bindings, binding) <= bindings.len(),
        is_ordered(bindings.insert(binding_place(bindings, binding), binding)),
        forall|i: int|
            0 <= i < binding_place(bindings, binding) ==> !binding_before(binding, #[trigger] bindings[i]),
        forall|i: int|
            binding_place(bindings, binding) <= i < bindings.len() ==> binding_before(binding, #[trigger] bindings[i]),
    decreases bindings.len(),
{
    let at = binding_place(bindings, binding);
    if bindings.len() > 0 && binding_before(binding, bindings.last()) {
        lemma_place(bindings.drop_last(), binding);
        assert forall|i: int| at <= i < bindings.len() implies binding_before(binding, #[trigger] bindings[i]) by {
            if i < bindings.len() - 1 {
                assert(bindings.drop_last()[i] == bindings[i]);
            }
        }
        assert forall|i: int| 0 <= i < at implies !binding_before(binding, #[trigger] bindings[i]) by {
            assert(bindings.drop_last()[i] == bindings[i]);
        }
    } else if bindings.len() > 0 {
        assert forall|i: int| 0 <= i < at implies !binding_before(binding, #[trigger] bindings[i]) by {
            if i < bindings.len() - 1 {
                lemma_bindings_chain(bindings[i], bindings.last(), binding);
            }
        }
    }
    let longer = bindings.insert(at, binding);
    assert forall|i: int, j: int| 0 <= i < j < longer.len() implies !binding_before(
        #[trigger] longer[j],
        #[trigger] longer[i],
    ) by {
        if i == at {
            lemma_asymmetric(binding, bindings[j - 1]);
        }
    }
}

proof fn lemma_asymmetric(a: BindingFacts, b: BindingFacts)
    ensures
        !(binding_before(a, b) && binding_before(b, a)),
{
    lemma_path_total(a.module, b.module);
    lemma_total(a.declared.name, b.declared.name);
    lemma_total(a.source.file, b.source.file);
}

/// The bindings of a report stand in order, and they are the ones that were declared.
pub proof fn law_reports_are_ordered(done: Seq<BindingFacts>, given: Seq<BindingFacts>, from: int)
    requires
        0 <= from <= given.len(),
        is_ordered(done),
    ensures
        is_ordered(in_order(done, given, from)),
        in_order(done, given, from).to_multiset() == done.to_multiset().add(given.skip(from).to_multiset()),
    decreases given.len() - from,
{
    broadcast use vstd::seq_lib::group_to_multiset_ensures;

    if from < given.len() {
        let at = binding_place(done, given[from]);
        lemma_place(done, given[from]);
        let longer = done.insert(at, given[from]);
        law_reports_are_ordered(longer, given, from + 1);
        assert(given.skip(from) =~= seq![given[from]] + given.skip(from + 1));
        vstd::seq_lib::lemma_multiset_commutative(seq![given[from]], given.skip(from + 1));
        assert(seq![given[from]] =~= Seq::<BindingFacts>::empty().push(given[from]));
        assert(longer.to_multiset() =~= done.to_multiset().insert(given[from]));
        assert(in_order(done, given, from).to_multiset() =~= done.to_multiset().add(given.skip(from).to_multiset()));
    } else {
        assert(given.skip(from) =~= Seq::<BindingFacts>::empty());
        assert(in_order(done, given, from).to_multiset() =~= done.to_multiset().add(given.skip(from).to_multiset()));
    }
}

/// Decides whether a path comes before another.
fn is_path_before(a: &Vec<String>, b: &Vec<String>) -> (before: bool)
    ensures
        before == path_before(texts(a@), texts(b@)),
{
    let mut i: usize = 0;
    proof {
        assert(texts(a@).skip(0) =~= texts(a@));
        assert(texts(b@).skip(0) =~= texts(b@));
    }
    while i < a.len() && i < b.len() && same_text(a[i].as_str(), b[i].as_str())
        invariant
            i <= a@.len(),
            i <= b@.len(),
            path_before(texts(a@), texts(b@)) == path_before(texts(a@).skip(i as int), texts(b@).skip(i as int)),
        ensures
            i <= a@.len(),
            i <= b@.len(),
            i == a@.len() || i == b@.len() || a@[i as int]@ != b@[i as int]@,
        decreases a@.len() - i,
    {
        proof {
            assert(texts(a@).skip(i as int).drop_first() =~= texts(a@).skip(i + 1));
            assert(texts(b@).skip(i as int).drop_first() =~= texts(b@).skip(i + 1));
        }
        i += 1;
    }
    if i == b.len() {
        false
    } else if i == a.len() {
        true
    } else {
        text_before(a[i].as_str(), b[i].as_str())
    }
}

/// Decides whether two paths are the same.
fn is_same_path(a: &Vec<String>, b: &Vec<String>) -> (same: bool)
    ensures
        same == (texts(a@) == texts(b@)),
{
    if a.len() != b.len() {
        proof {
            assert(texts(a@).len() != texts(b@).len());
        }
        return false;
    }
    let mut i: usize = 0;
    while i < a.len()
        invariant
            i <= a@.len(),
            a@.len() == b@.len(),
            forall|j: int| 0 <= j < i ==> (#[trigger] a@[j])@ == b@[j]@,
        decreases a@.len() - i,
    {
        if !same_text(a[i].as_str(), b[i].as_str()) {
            proof {
                assert(texts(a@)[i as int] != texts(b@)[i as int]);
            }
            return false;
        }
        i += 1;
    }
    proof {
        assert(texts(a@) =~= texts(b@));
    }
    true
}

/// Decides whether a binding comes before another.
fn is_binding_before(a: &BindingReport, b: &BindingReport) -> (before: bool)
    ensures
        before == binding_before(a.model(), b.model()),
{
    if !is_same_path(&a.module, &b.module) {
        is_path_before(&a.module, &b.module)
    } else if !same_text(a.name.as_str(), b.name.as_str()) {
        text_before(a.name.as_str(), b.name.as_str())
    } else {
        text_before(a.source.file.as_str(), b.source.file.as_str())
    }
}

/// Puts bindings in order: by module, then by name, then by file. Bindings that agree in all three stay as they were.
pub fn order_bindings(bindings: Vec<BindingReport>) -> (ordered: Vec<BindingReport>)
    ensures
        binding_facts(ordered@) == in_order(Seq::empty(), binding_facts(bindings@), 0),
{
    let ghost given = bindings@;
    let ghost facts = binding_facts(bindings@);
    let mut ordered: Vec<BindingReport> = Vec::new();
    proof {
        assert(binding_facts(ordered@) =~= Seq::empty());
    }
    for binding in it: bindings
        invariant
            it.seq() == given,
            facts == binding_facts(given),
            in_order(Seq::empty(), facts, 0) == in_order(binding_facts(ordered@), facts, it.index()),
    {
        let ghost before = binding_facts(ordered@);
        let mut at: usize = ordered.len();
        proof {
            assert(before.take(at as int) =~= before);
        }
        while at > 0 && is_binding_before(&binding, &ordered[at - 1])
            invariant
                at <= ordered@.len(),
                before == binding_facts(ordered@),
                binding_place(before, binding.model()) == binding_place(before.take(at as int), binding.model()),
            ensures
                at <= ordered@.len(),
                binding_place(before, binding.model()) == at,
            decreases at,
        {
            proof {
                assert(before.take(at as int).drop_last() =~= before.take(at - 1));
            }
            at -= 1;
        }
        let ghost model = binding.model();
        ordered.insert(at, binding);
        proof {
            assert(binding_facts(ordered@) =~= before.insert(at as int, model));
        }
    }
    ordered
}

// ---------------------------------------------------------------------------
// Inspection
// ---------------------------------------------------------------------------

/// What the reports of a module's bindings are.
pub open spec fn module_facts(module: CheckedModule) -> Seq<BindingFacts> {
    match module.bindings {
        Some(bindings) => Seq::new(bindings@.len(), |i: int| reported(module, bindings@[i])),
        None => Seq::empty(),
    }
}

/// What the reports of the bindings of the first modules are.
pub open spec fn gathered(modules: Seq<CheckedModule>, count: int) -> Seq<BindingFacts>
    decreases count,
{
    if count <= 0 {
        Seq::empty()
    } else {
        gathered(modules, count - 1) + module_facts(modules[count - 1])
    }
}

/// The first module from one on that was not analysed.
pub open spec fn first_unanalysed(modules: Seq<CheckedModule>, from: int) -> Option<int>
    decreases modules.len() - from,
{
    if from < 0 || from >= modules.len() {
        None
    } else if modules[from].bindings is None {
        Some(from)
    } else {
        first_unanalysed(modules, from + 1)
    }
}

/// What is reported of a program's modules: every binding, in order, unless a module was not analysed.
pub open spec fn inspected(modules: Seq<CheckedModule>) -> Result<Seq<BindingFacts>, Seq<char>> {
    match first_unanalysed(modules, 0) {
        Some(i) => Err("missing session analysis for "@ + modules[i].file_path@),
        None => Ok(in_order(Seq::empty(), gathered(modules, modules.len() as int), 0)),
    }
}

/// Whether the sources of modules are short enough for their lines and columns to be counted.
pub open spec fn countable(modules: Seq<CheckedModule>) -> bool {
    forall|i: int| 0 <= i < modules.len() ==> encode_utf8((#[trigger] modules[i]).source@).len() < usize::MAX
}

/// Reports the bindings of a program's modules.
pub fn binding_inspection_report(modules: &Vec<CheckedModule>) -> (report: Result<BindingInspectionReport, String>)
    requires
        countable(modules@),
    ensures
        match (report, inspected(modules@)) {
            (Ok(report), Ok(facts)) => report.schema_version == BINDING_INSPECTION_SCHEMA_VERSION && binding_facts(
                report.bindings@,
            ) == facts,
            (Err(message), Err(expected)) => message@ == expected,
            _ => false,
        },
{
    let mut bindings: Vec<BindingReport> = Vec::new();
    let mut i: usize = 0;
    proof {
        assert(binding_facts(bindings@) =~= Seq::empty());
    }
    while i < modules.len()
        invariant
            i <= modules@.len(),
            countable(modules@),
            first_unanalysed(modules@, 0) == first_unanalysed(modules@, i as int),
            binding_facts(bindings@) == gathered(modules@, i as int),
        decreases modules@.len() - i,
    {
        let module: &CheckedModule = &modules[i];
        match &module.bindings {
            None => {
                return Err("missing session analysis for ".to_owned().concat(module.file_path.as_str()));
            },
            Some(descriptors) => {
                let ghost before = binding_facts(bindings@);
                let mut j: usize = 0;
                proof {
                    assert(before + module_facts(*module).take(0) =~= before);
                }
                while j < descriptors.len()
                    invariant
                        j <= descriptors@.len(),
                        module.bindings == Some(*descriptors),
                        encode_utf8(module.source@).len() < usize::MAX,
                        binding_facts(bindings@) == before + module_facts(*module).take(j as int),
                    decreases descriptors@.len() - j,
                {
                    let report: BindingReport = binding_report(module, &descriptors[j]);
                    let ghost so_far = binding_facts(bindings@);
                    bindings.push(report);
                    proof {
                        assert(binding_facts(bindings@) =~= so_far.push(report.model()));
                        assert(module_facts(*module)[j as int] == report.model());
                        assert(binding_facts(bindings@) =~= before + module_facts(*module).take(j + 1));
                    }
                    j += 1;
                }
                proof {
                    assert(module_facts(*module).take(j as int) =~= module_facts(*module));
                }
            },
        }
        i += 1;
    }
    let bindings: Vec<BindingReport> = order_bindings(bindings);
    Ok(BindingInspectionReport { schema_version: BINDING_INSPECTION_SCHEMA_VERSION, bindings })
}

/// Inspects the bindings of a program's modules.
pub fn inspect_bindings(modules: &Vec<CheckedModule>, format: BindingInspectionFormat) -> (inspection: Result<
    BindingInspection,
    String,
>)
    requires
        countable(modules@),
    ensures
        match (inspection, inspected(modules@)) {
            (Ok(BindingInspection::Text(text)), Ok(facts)) => format == BindingInspectionFormat::Text && text@
                == report_text(facts),
            (Ok(BindingInspection::Json(report)), Ok(facts)) => format == BindingInspectionFormat::Json
                && report.schema_version == BINDING_INSPECTION_SCHEMA_VERSION && binding_facts(report.bindings@)
                == facts,
            (Err(message), Err(expected)) => message@ == expected,
            _ => false,
        },
{
    match binding_inspection_report(modules) {
        Ok(report) => match format {
            BindingInspectionFormat::Text => Ok(BindingInspection::Text(render_binding_inspection_text(&report))),
            BindingInspectionFormat::Json => Ok(BindingInspection::Json(report)),
        },
        Err(message) => Err(message),
    }
}

// ---------------------------------------------------------------------------
// The entry file
// ---------------------------------------------------------------------------

/// What is known of the path that is to be inspected.
#[derive(Debug, Clone, Copy, PartialEq, Eq, Structural)]
pub struct PathFacts {
    /// Whether it is a file.
    pub is_file: bool,
    /// Whether it is a directory.
    pub is_dir: bool,
    /// Whether it has the entry file of a program.
    pub has_main: bool,
    /// Whether it has the entry file of a library.
    pub has_lib: bool,
}

/// The file that is inspected.
#[derive(Debug, Clone, Copy, PartialEq, Eq, Structural)]
pub enum BindingEntry {
    /// The path itself.
    Given,
    /// The entry file of the program under it.
    Main,
    /// The entry file of the library under it.
    Lib,
}

/// Chooses the file that is inspected.
pub fn resolve_binding_entry_path(path: &str, facts: PathFacts) -> (entry: Result<BindingEntry, String>)
    ensures
        match entry {
            Ok(entry) => entry == (if facts.is_file {
                BindingEntry::Given
            } else if facts.has_main {
                BindingEntry::Main
            } else {
                BindingEntry::Lib
            }) && (facts.is_file || (facts.is_dir && (facts.has_main || facts.has_lib))),
            Err(message) => !facts.is_file && if facts.is_dir {
                !facts.has_main && !facts.has_lib && message@
                    == "binding inspection requires an Incan source file, or a project directory with `src/main.incn` or `src/lib.incn`: "@
                    + path@
            } else {
                message@ == "binding inspection path does not exist: "@ + path@
            },
        },
{
    if facts.is_file {
        return Ok(BindingEntry::Given);
    }
    if facts.is_dir {
        if facts.has_main {
            return Ok(BindingEntry::Main);
        }
        if facts.has_lib {
            return Ok(BindingEntry::Lib);
        }
        return Err(
            "binding inspection requires an Incan source file, or a project directory with `src/main.incn` or `src/lib.incn`: ".to_owned().concat(
                path,
            ),
        );
    }
    Err("binding inspection path does not exist: ".to_owned().concat(path))
}

} // verus!
