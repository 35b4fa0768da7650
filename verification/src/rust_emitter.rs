//! Builder of formatted Rust source text.

use crate::names::NameMap;
use crate::text::{
    chars_of, join, join_slices, joined, lemma_trimmed_is_no_longer, same_text, slice_texts, text_of, texts, trim,
    trimmed,
};
use std::collections::HashSet;
use vstd::prelude::*;

verus! {

broadcast use {vstd::string::group_string_axioms, vstd::std_specs::hash::group_hash_axioms};

/// Known kinds of collections.
#[derive(Debug, Clone, Copy, PartialEq, Eq, Structural)]
pub enum CollectionKind {
    /// A list.
    List,
    /// A dictionary.
    Dict,
    /// A set.
    SetKind,
}

/// What is known of a function's parameters.
#[derive(Debug)]
pub struct FunctionParamInfo {
    /// The places of the parameters that are taken by mutable reference.
    pub mut_params: HashSet<usize>,
}

/// `HashSet::clone` duplicates a set: the copy holds the same places.
#[verifier::external_body]
fn copy_places(places: &HashSet<usize>) -> (copy: HashSet<usize>)
    ensures
        copy@ == places@,
{
    places.clone()
}

impl Clone for FunctionParamInfo {
    fn clone(&self) -> (copy: Self)
        ensures
            copy.mut_params@ == self.mut_params@,
    {
        FunctionParamInfo { mut_params: copy_places(&self.mut_params) }
    }
}

impl Default for FunctionParamInfo {
    fn default() -> (info: Self)
        ensures
            info.mut_params@ == Set::<usize>::empty(),
    {
        FunctionParamInfo { mut_params: HashSet::new() }
    }
}

/// A buffer for Rust source text with indentation, and what is known of the names in it.
#[derive(Debug)]
pub struct RustEmitter {
    /// The text so far.
    pub buffer: String,
    /// How deep lines are indented.
    pub indent_level: usize,
    /// One step of indentation.
    pub indent_str: &'static str,
    /// The declared variables of each scope, innermost last.
    pub scope_stack: Vec<NameMap<()>>,
    /// The parameters that already are mutable references.
    pub mut_ref_params: NameMap<()>,
    /// The local variables that are passed by mutable reference.
    pub mut_collection_vars: NameMap<()>,
    /// What is known of the functions' parameters.
    pub function_params: NameMap<FunctionParamInfo>,
    /// The kinds of collection variables.
    pub collection_kinds: NameMap<CollectionKind>,
    /// The variables that are strings.
    pub string_vars: NameMap<()>,
}

/// What the builder holds.
#[verifier::ext_equal]
pub ghost struct EmitterModel {
    /// The text so far.
    pub text: Seq<char>,
    /// How deep lines are indented.
    pub level: nat,
    /// One step of indentation.
    pub unit: Seq<char>,
    /// The declared variables of each scope, innermost last.
    pub scopes: Seq<Set<Seq<char>>>,
    /// The parameters that already are mutable references.
    pub mut_refs: Set<Seq<char>>,
    /// The local variables that are passed by mutable reference.
    pub mut_collections: Set<Seq<char>>,
    /// The places of the parameters that functions take by mutable reference.
    pub functions: Map<Seq<char>, Set<usize>>,
    /// The kinds of collection variables.
    pub kinds: Map<Seq<char>, CollectionKind>,
    /// The variables that are strings.
    pub strings: Set<Seq<char>>,
}

/// The declared variables of a run of scopes.
pub open spec fn scope_sets(scopes: Seq<NameMap<()>>) -> Seq<Set<Seq<char>>> {
    Seq::new(scopes.len(), |i: int| scopes[i]@.dom())
}

/// Some steps of indentation.
pub open spec fn indentation(unit: Seq<char>, level: nat) -> Seq<char>
    decreases level,
{
    if level == 0 {
        Seq::empty()
    } else {
        indentation(unit, (level - 1) as nat) + unit
    }
}

/// The builder with more text.
pub open spec fn written(m: EmitterModel, text: Seq<char>) -> EmitterModel {
    EmitterModel { text: m.text + text, ..m }
}

/// The builder with one more indented line.
pub open spec fn lined(m: EmitterModel, text: Seq<char>) -> EmitterModel {
    EmitterModel { text: m.text + indentation(m.unit, m.level) + text + "\n"@, ..m }
}

/// The builder one step deeper.
pub open spec fn deeper(m: EmitterModel) -> EmitterModel {
    EmitterModel { level: m.level + 1, ..m }
}

/// The builder one step less deep, but never less than not at all.
pub open spec fn shallower(m: EmitterModel) -> EmitterModel {
    EmitterModel {
        level: if m.level > 0 {
            (m.level - 1) as nat
        } else {
            0
        },
        ..m
    }
}

/// The builder inside a block that it has opened.
pub open spec fn opened(m: EmitterModel, header: Seq<char>) -> EmitterModel {
    deeper(lined(m, header + " {"@))
}

/// The builder behind a block that it closes.
pub open spec fn closed(m: EmitterModel) -> EmitterModel {
    lined(shallower(m), "}"@)
}

/// A visibility with the space behind it.
pub open spec fn visibility_prefix(visibility: Seq<char>) -> Seq<char> {
    if visibility.len() == 0 {
        Seq::empty()
    } else {
        visibility + " "@
    }
}

/// The header of an impl block.
pub open spec fn impl_header(adopted: Option<Seq<char>>, name: Seq<char>) -> Seq<char> {
    match adopted {
        Some(adopted) => "impl "@ + adopted + " for "@ + name,
        None => "impl "@ + name,
    }
}

/// The header of a function.
pub open spec fn function_header(
    visibility: Seq<char>,
    is_async: bool,
    name: Seq<char>,
    type_params: Seq<Seq<char>>,
    params: Seq<char>,
    return_type: Seq<char>,
) -> Seq<char> {
    visibility_prefix(visibility) + (if is_async {
        "async "@
    } else {
        Seq::empty()
    }) + "fn "@ + name + (if type_params.len() == 0 {
        Seq::empty()
    } else {
        "<"@ + joined(type_params, ", "@) + ">"@
    }) + "("@ + params + ")"@ + (if return_type.len() == 0 {
        Seq::empty()
    } else {
        " -> "@ + return_type
    })
}

/// The builder behind the derives of a definition, where it has any.
pub open spec fn derived(m: EmitterModel, derives: Seq<Seq<char>>) -> EmitterModel {
    if derives.len() == 0 {
        m
    } else {
        lined(m, "#[derive("@ + joined(derives, ", "@) + ")]"@)
    }
}

/// The builder behind the fields of a struct, from one on.
pub open spec fn fielded(m: EmitterModel, fields: Seq<(String, String)>, from: int) -> EmitterModel
    decreases fields.len() - from,
{
    if from < 0 || from >= fields.len() {
        m
    } else {
        fielded(lined(m, "pub "@ + fields[from].0@ + ": "@ + fields[from].1@ + ","@), fields, from + 1)
    }
}

/// The builder behind a struct.
pub open spec fn struct_written(
    m: EmitterModel,
    derives: Seq<Seq<char>>,
    visibility: Seq<char>,
    name: Seq<char>,
    fields: Seq<(String, String)>,
) -> EmitterModel {
    let start = derived(m, derives);
    if fields.len() == 0 {
        lined(start, visibility_prefix(visibility) + "struct "@ + name + ";"@)
    } else {
        closed(fielded(opened(start, visibility_prefix(visibility) + "struct "@ + name), fields, 0))
    }
}

/// The line of a variant.
pub open spec fn variant_line(variant: (String, Vec<String>)) -> Seq<char> {
    if variant.1@.len() == 0 {
        variant.0@ + ","@
    } else {
        variant.0@ + "("@ + joined(texts(variant.1@), ", "@) + "),"@
    }
}

/// The builder behind the variants of an enum, from one on.
pub open spec fn varianted(m: EmitterModel, variants: Seq<(String, Vec<String>)>, from: int) -> EmitterModel
    decreases variants.len() - from,
{
    if from < 0 || from >= variants.len() {
        m
    } else {
        varianted(lined(m, variant_line(variants[from])), variants, from + 1)
    }
}

/// The builder behind an enum.
pub open spec fn enum_written(
    m: EmitterModel,
    derives: Seq<Seq<char>>,
    visibility: Seq<char>,
    name: Seq<char>,
    variants: Seq<(String, Vec<String>)>,
) -> EmitterModel {
    closed(
        varianted(
            opened(derived(m, derives), visibility_prefix(visibility) + "enum "@ + name),
            variants,
            0,
        ),
    )
}

/// Whether any scope declares a variable.
pub open spec fn declared(scopes: Seq<Set<Seq<char>>>, name: Seq<char>) -> bool {
    exists|i: int| 0 <= i < scopes.len() && (#[trigger] scopes[i]).contains(name)
}

/// A visibility with the space behind it.
fn visibility_text(visibility: &str) -> (prefix: String)
    ensures
        prefix@ == visibility_prefix(visibility@),
{
    if visibility.unicode_len() == 0 {
        String::new()
    } else {
        visibility.to_owned().concat(" ")
    }
}

impl Default for RustEmitter {
    fn default() -> (emitter: Self)
        ensures
            emitter.model() == fresh(""@),
    {
        RustEmitter::with_unit("")
    }
}

/// The builder before anything is written.
pub open spec fn fresh(unit: Seq<char>) -> EmitterModel {
    EmitterModel {
        text: Seq::empty(),
        level: 0,
        unit,
        scopes: Seq::empty(),
        mut_refs: Set::empty(),
        mut_collections: Set::empty(),
        functions: Map::empty(),
        kinds: Map::empty(),
        strings: Set::empty(),
    }
}

impl RustEmitter {
    /// What the builder holds.
    pub open spec fn model(&self) -> EmitterModel {
        EmitterModel {
            text: self.buffer@,
            level: self.indent_level as nat,
            unit: self.indent_str@,
            scopes: scope_sets(self.scope_stack@),
            mut_refs: self.mut_ref_params@.dom(),
            mut_collections: self.mut_collection_vars@.dom(),
            functions: self.function_params@.map_values(|info: FunctionParamInfo| info.mut_params@),
            kinds: self.collection_kinds@,
            strings: self.string_vars@.dom(),
        }
    }

    /// An empty builder with a step of indentation.
    fn with_unit(unit: &'static str) -> (emitter: Self)
        ensures
            emitter.model() == fresh(unit@),
    {
        let emitter = RustEmitter {
            buffer: String::new(),
            indent_level: 0,
            indent_str: unit,
            scope_stack: Vec::new(),
            mut_ref_params: NameMap::new(),
            mut_collection_vars: NameMap::new(),
            function_params: NameMap::new(),
            collection_kinds: NameMap::new(),
            string_vars: NameMap::new(),
        };
        proof {
            assert(emitter.model() =~= fresh(unit@));
        }
        emitter
    }

    /// An empty builder that indents by four spaces.
    pub fn new() -> (emitter: Self)
        ensures
            emitter.model() == fresh("    "@),
    {
        RustEmitter::with_unit("    ")
    }

    /// Registers which parameters a function takes by mutable reference.
    pub fn register_function_params(&mut self, name: &str, info: FunctionParamInfo)
        ensures
            final(self).model() == (EmitterModel {
                functions: old(self).model().functions.insert(name@, info.mut_params@),
                ..old(self).model()
            }),
    {
        self.function_params.insert(name.to_owned(), info);
        proof {
            assert(self.model().functions =~= old(self).model().functions.insert(name@, info.mut_params@));
        }
    }

    /// Decides whether a function takes a parameter by mutable reference.
    pub fn function_param_is_mut(&self, func_name: &str, param_idx: usize) -> (found: bool)
        ensures
            found == (self.model().functions.contains_key(func_name@) && self.model().functions[func_name@].contains(
                param_idx,
            )),
    {
        match self.function_params.get(func_name) {
            Some(info) => info.mut_params.contains(&param_idx),
            None => false,
        }
    }

    /// Registers a parameter that already is a mutable reference.
    pub fn register_mut_ref_param(&mut self, name: &str)
        ensures
            final(self).model() == (EmitterModel {
                mut_refs: old(self).model().mut_refs.insert(name@),
                ..old(self).model()
            }),
    {
        self.mut_ref_params.insert(name.to_owned(), ());
        proof {
            assert(self.model() =~= EmitterModel {
                mut_refs: old(self).model().mut_refs.insert(name@),
                ..old(self).model()
            });
        }
    }

    /// Decides whether a variable is a parameter that already is a mutable reference.
    pub fn is_mut_ref_param(&self, name: &str) -> (found: bool)
        ensures
            found == self.model().mut_refs.contains(name@),
    {
        self.mut_ref_params.contains_key(name)
    }

    /// Registers a local variable that is passed by mutable reference.
    pub fn register_mut_collection_var(&mut self, name: &str)
        ensures
            final(self).model() == (EmitterModel {
                mut_collections: old(self).model().mut_collections.insert(name@),
                ..old(self).model()
            }),
    {
        self.mut_collection_vars.insert(name.to_owned(), ());
        proof {
            assert(self.model() =~= EmitterModel {
                mut_collections: old(self).model().mut_collections.insert(name@),
                ..old(self).model()
            });
        }
    }

    /// Decides whether a variable is passed by mutable reference.
    pub fn is_mut_collection_var(&self, name: &str) -> (found: bool)
        ensures
            found == self.model().mut_collections.contains(name@),
    {
        self.mut_collection_vars.contains_key(name)
    }

    /// Forgets the mutable references of a function.
    pub fn clear_mut_ref_params(&mut self)
        ensures
            final(self).model() == (EmitterModel {
                mut_refs: Set::empty(),
                mut_collections: Set::empty(),
                ..old(self).model()
            }),
    {
        self.mut_ref_params = NameMap::new();
        self.mut_collection_vars = NameMap::new();
        proof {
            assert(self.model() =~= EmitterModel {
                mut_refs: Set::empty(),
                mut_collections: Set::empty(),
                ..old(self).model()
            });
        }
    }

    /// Registers the kind of a collection variable.
    pub fn register_collection_kind(&mut self, name: &str, kind: CollectionKind)
        ensures
            final(self).model() == (EmitterModel {
                kinds: old(self).model().kinds.insert(name@, kind),
                ..old(self).model()
            }),
    {
        self.collection_kinds.insert(name.to_owned(), kind);
    }

    /// The kind of a collection variable, where it is known.
    pub fn collection_kind(&self, name: &str) -> (kind: Option<CollectionKind>)
        ensures
            kind == (if self.model().kinds.contains_key(name@) {
                Some(self.model().kinds[name@])
            } else {
                None
            }),
    {
        match self.collection_kinds.get(name) {
            Some(kind) => Some(*kind),
            None => None,
        }
    }

    /// Registers a variable that is a string.
    pub fn register_string_var(&mut self, name: &str)
        ensures
            final(self).model() == (EmitterModel {
                strings: old(self).model().strings.insert(name@),
                ..old(self).model()
            }),
    {
        self.string_vars.insert(name.to_owned(), ());
        proof {
            assert(self.model() =~= EmitterModel {
                strings: old(self).model().strings.insert(name@),
                ..old(self).model()
            });
        }
    }

    /// Decides whether a variable is known to be a string.
    pub fn is_string_var(&self, name: &str) -> (found: bool)
        ensures
            found == self.model().strings.contains(name@),
    {
        self.string_vars.contains_key(name)
    }

    /// Opens a scope.
    pub fn push_scope(&mut self)
        ensures
            final(self).model() == (EmitterModel {
                scopes: old(self).model().scopes.push(Set::empty()),
                ..old(self).model()
            }),
    {
        self.scope_stack.push(NameMap::new());
        proof {
            assert(self.scope_stack@.last()@.dom() =~= Set::empty());
            assert(self.model().scopes =~= old(self).model().scopes.push(Set::empty()));
        }
    }

    /// Closes the innermost scope, where there is one.
    pub fn pop_scope(&mut self)
        ensures
            final(self).model() == (EmitterModel {
                scopes: if old(self).model().scopes.len() == 0 {
                    Seq::empty()
                } else {
                    old(self).model().scopes.drop_last()
                },
                ..old(self).model()
            }),
    {
        let _ = self.scope_stack.pop();
        proof {
            if old(self).model().scopes.len() == 0 {
                assert(self.model().scopes =~= Seq::empty());
            } else {
                assert(self.model().scopes =~= old(self).model().scopes.drop_last());
            }
        }
    }

    /// Declares a variable in the innermost scope, where there is one.
    pub fn declare_var(&mut self, name: &str)
        ensures
            final(self).model() == (EmitterModel {
                scopes: if old(self).model().scopes.len() == 0 {
                    Seq::empty()
                } else {
                    old(self).model().scopes.update(
                        old(self).model().scopes.len() - 1,
                        old(self).model().scopes.last().insert(name@),
                    )
                },
                ..old(self).model()
            }),
    {
        let count: usize = self.scope_stack.len();
        if count > 0 {
            self.scope_stack[count - 1].insert(name.to_owned(), ());
            proof {
                assert(self.scope_stack@[count - 1]@.dom() =~= old(self).scope_stack@[count - 1]@.dom().insert(
                    name@,
                ));
                assert(self.model().scopes =~= old(self).model().scopes.update(
                    count - 1,
                    old(self).model().scopes.last().insert(name@),
                ));
            }
        } else {
            proof {
                assert(self.model().scopes =~= Seq::empty());
            }
        }
    }

    /// Decides whether any scope declares a variable.
    pub fn is_var_declared(&self, name: &str) -> (found: bool)
        ensures
            found == declared(self.model().scopes, name@),
    {
        let mut i: usize = 0;
        while i < self.scope_stack.len()
            invariant
                i <= self.scope_stack@.len(),
                forall|j: int| 0 <= j < i ==> !(#[trigger] self.model().scopes[j]).contains(name@),
            decreases self.scope_stack@.len() - i,
        {
            if self.scope_stack[i].contains_key(name) {
                proof {
                    assert(self.model().scopes[i as int].contains(name@));
                }
                return true;
            }
            i += 1;
        }
        false
    }

    /// The text.
    pub fn finish(self) -> (text: String)
        ensures
            text@ == self.model().text,
    {
        self.buffer
    }

    /// The text so far.
    pub fn as_str(&self) -> (text: &str)
        ensures
            text@ == self.model().text,
    {
        self.buffer.as_str()
    }

    /// Writes an indented line.
    pub fn line(&mut self, s: &str)
        ensures
            final(self).model() == lined(old(self).model(), s@),
    {
        self.write_indent();
        self.buffer.append(s);
        self.buffer.append("\n");
    }

    /// Writes text.
    pub fn write(&mut self, s: &str)
        ensures
            final(self).model() == written(old(self).model(), s@),
    {
        self.buffer.append(s);
    }

    /// Writes text that was formatted before.
    pub fn writef(&mut self, formatted: &str)
        ensures
            final(self).model() == written(old(self).model(), formatted@),
    {
        self.buffer.append(formatted);
    }

    /// Writes an empty line.
    pub fn blank_line(&mut self)
        ensures
            final(self).model() == written(old(self).model(), "\n"@),
    {
        self.buffer.append("\n");
    }

    /// Writes the indentation of a line.
    pub fn write_indent(&mut self)
        ensures
            final(self).model() == written(
                old(self).model(),
                indentation(old(self).model().unit, old(self).model().level),
            ),
    {
        let ghost unit = self.model().unit;
        let mut i: usize = 0;
        proof {
            assert(self.model().text + indentation(unit, 0) =~= self.model().text);
        }
        while i < self.indent_level
            invariant
                i <= self.indent_level,
                unit == old(self).model().unit,
                self.model() == written(old(self).model(), indentation(unit, i as nat)),
            decreases self.indent_level - i,
        {
            let ghost before = self.model().text;
            self.buffer.append(self.indent_str);
            i += 1;
            proof {
                assert(self.model().text =~= old(self).model().text + indentation(unit, i as nat));
            }
        }
    }

    /// Indents one step deeper.
    pub fn indent(&mut self)
        requires
            old(self).model().level < usize::MAX,
        ensures
            final(self).model() == deeper(old(self).model()),
    {
        self.indent_level += 1;
    }

    /// Indents one step less deep.
    pub fn dedent(&mut self)
        ensures
            final(self).model() == shallower(old(self).model()),
    {
        if self.indent_level > 0 {
            self.indent_level -= 1;
        }
    }

    /// Writes a block between braces.
    pub fn block<F>(&mut self, header: &str, f: F) where F: FnOnce(&mut RustEmitter)
        requires
            old(self).model().level < usize::MAX,
            forall|inner: &mut RustEmitter|
                (*inner).model() == opened(old(self).model(), header@) ==> call_requires(f, (inner,)),
        ensures
            exists|inner: &mut RustEmitter|
                {
                    &&& (*inner).model() == opened(old(self).model(), header@)
                    &&& #[trigger] call_ensures(f, (inner,), ())
                    &&& final(self).model() == closed((*final(inner)).model())
                },
    {
        self.line(header.to_owned().concat(" {").as_str());
        self.indent();
        f(self);
        self.dedent();
        self.line("}");
    }

    /// Writes an impl block.
    pub fn impl_block<F>(&mut self, trait_name: Option<&str>, target: &str, f: F) where F: FnOnce(&mut RustEmitter)
        requires
            old(self).model().level < usize::MAX,
            forall|inner: &mut RustEmitter|
                (*inner).model() == opened(
                    old(self).model(),
                    impl_header(
                        match trait_name {
                            Some(name) => Some(name@),
                            None => None,
                        },
                        target@,
                    ),
                ) ==> call_requires(f, (inner,)),
        ensures
            exists|inner: &mut RustEmitter|
                {
                    &&& (*inner).model() == opened(
                        old(self).model(),
                        impl_header(
                            match trait_name {
                                Some(name) => Some(name@),
                                None => None,
                            },
                            target@,
                        ),
                    )
                    &&& #[trigger] call_ensures(f, (inner,), ())
                    &&& final(self).model() == closed((*final(inner)).model())
                },
    {
        let header: String = match trait_name {
            Some(name) => "impl ".to_owned().concat(name).concat(" for ").concat(target),
            None => "impl ".to_owned().concat(target),
        };
        self.block(header.as_str(), f);
    }

    /// Writes a function without type parameters.
    pub fn function<F>(
        &mut self,
        visibility: &str,
        is_async: bool,
        name: &str,
        params: &str,
        return_type: &str,
        f: F,
    ) where F: FnOnce(&mut RustEmitter)
        requires
            old(self).model().level < usize::MAX,
            forall|inner: &mut RustEmitter|
                (*inner).model() == opened(
                    old(self).model(),
                    function_header(visibility@, is_async, name@, Seq::empty(), params@, return_type@),
                ) ==> call_requires(f, (inner,)),
        ensures
            exists|inner: &mut RustEmitter|
                {
                    &&& (*inner).model() == opened(
                        old(self).model(),
                        function_header(visibility@, is_async, name@, Seq::empty(), params@, return_type@),
                    )
                    &&& #[trigger] call_ensures(f, (inner,), ())
                    &&& final(self).model() == closed((*final(inner)).model())
                },
    {
        let none: Vec<String> = Vec::new();
        proof {
            assert(texts(none@) =~= Seq::empty());
        }
        self.function_generic(visibility, is_async, name, &none, params, return_type, f);
    }

    /// Writes a function with type parameters.
    pub fn function_generic<F>(
        &mut self,
        visibility: &str,
        is_async: bool,
        name: &str,
        type_params: &[String],
        params: &str,
        return_type: &str,
        f: F,
    ) where F: FnOnce(&mut RustEmitter)
        requires
            old(self).model().level < usize::MAX,
            forall|inner: &mut RustEmitter|
                (*inner).model() == opened(
                    old(self).model(),
                    function_header(visibility@, is_async, name@, texts(type_params@), params@, return_type@),
                ) ==> call_requires(f, (inner,)),
        ensures
            exists|inner: &mut RustEmitter|
                {
                    &&& (*inner).model() == opened(
                        old(self).model(),
                        function_header(visibility@, is_async, name@, texts(type_params@), params@, return_type@),
                    )
                    &&& #[trigger] call_ensures(f, (inner,), ())
                    &&& final(self).model() == closed((*final(inner)).model())
                },
    {
        let asynchronous: String = if is_async {
            "async ".to_owned()
        } else {
            String::new()
        };
        let generics: String = if type_params.len() == 0 {
            String::new()
        } else {
            "<".to_owned().concat(join(type_params, ", ").as_str()).concat(">")
        };
        let result: String = if return_type.unicode_len() == 0 {
            String::new()
        } else {
            " -> ".to_owned().concat(return_type)
        };
        let header: String = visibility_text(visibility).concat(asynchronous.as_str()).concat("fn ").concat(
            name,
        ).concat(generics.as_str()).concat("(").concat(params).concat(")").concat(result.as_str());
        self.block(header.as_str(), f);
    }

    /// Writes the derives of a definition, where it has any.
    fn derive_line(&mut self, derives: &[&str])
        ensures
            final(self).model() == derived(old(self).model(), slice_texts(derives@)),
    {
        if derives.len() > 0 {
            self.line("#[derive(".to_owned().concat(join_slices(derives, ", ").as_str()).concat(")]").as_str());
        }
    }

    /// Writes a struct.
    pub fn struct_def(&mut self, derives: &[&str], visibility: &str, name: &str, fields: &[(String, String)])
        requires
            fields@.len() > 0 ==> old(self).model().level < usize::MAX,
        ensures
            final(self).model() == struct_written(
                old(self).model(),
                slice_texts(derives@),
                visibility@,
                name@,
                fields@,
            ),
    {
        self.derive_line(derives);
        let header: String = visibility_text(visibility).concat("struct ").concat(name);
        if fields.len() == 0 {
            self.line(header.concat(";").as_str());
        } else {
            self.line(header.concat(" {").as_str());
            self.indent();
            let ghost start = self.model();
            let mut i: usize = 0;
            while i < fields.len()
                invariant
                    i <= fields@.len(),
                    fielded(start, fields@, 0) == fielded(self.model(), fields@, i as int),
                decreases fields@.len() - i,
            {
                self.line(
                    "pub ".to_owned().concat(fields[i].0.as_str()).concat(": ").concat(fields[i].1.as_str()).concat(
                        ",",
                    ).as_str(),
                );
                i += 1;
            }
            self.dedent();
            self.line("}");
        }
    }

    /// Writes an enum.
    pub fn enum_def(&mut self, derives: &[&str], visibility: &str, name: &str, variants: &[(String, Vec<String>)])
        requires
            old(self).model().level < usize::MAX,
        ensures
            final(self).model() == enum_written(
                old(self).model(),
                slice_texts(derives@),
                visibility@,
                name@,
                variants@,
            ),
    {
        self.derive_line(derives);
        self.line(visibility_text(visibility).concat("enum ").concat(name).concat(" {").as_str());
        self.indent();
        let ghost start = self.model();
        let mut i: usize = 0;
        while i < variants.len()
            invariant
                i <= variants@.len(),
                varianted(start, variants@, 0) == varianted(self.model(), variants@, i as int),
            decreases variants@.len() - i,
        {
            let variant: &(String, Vec<String>) = &variants[i];
            let line: String = if variant.1.len() == 0 {
                variant.0.clone().concat(",")
            } else {
                variant.0.clone().concat("(").concat(join(&variant.1, ", ").as_str()).concat("),")
            };
            self.line(line.as_str());
            i += 1;
        }
        self.dedent();
        self.line("}");
    }

    /// Writes a trait.
    pub fn trait_def<F>(&mut self, visibility: &str, name: &str, f: F) where F: FnOnce(&mut RustEmitter)
        requires
            old(self).model().level < usize::MAX,
            forall|inner: &mut RustEmitter|
                (*inner).model() == opened(
                    old(self).model(),
                    visibility_prefix(visibility@) + "trait "@ + name@,
                ) ==> call_requires(f, (inner,)),
        ensures
            exists|inner: &mut RustEmitter|
                {
                    &&& (*inner).model() == opened(
                        old(self).model(),
                        visibility_prefix(visibility@) + "trait "@ + name@,
                    )
                    &&& #[trigger] call_ensures(f, (inner,), ())
                    &&& final(self).model() == closed((*final(inner)).model())
                },
    {
        self.block(visibility_text(visibility).concat("trait ").concat(name).as_str(), f);
    }

    /// Writes a newtype.
    pub fn newtype_def(&mut self, derives: &[&str], visibility: &str, name: &str, inner_type: &str)
        ensures
            final(self).model() == lined(
                derived(old(self).model(), slice_texts(derives@)),
                visibility_prefix(visibility@) + "struct "@ + name@ + "(pub "@ + inner_type@ + ");"@,
            ),
    {
        self.derive_line(derives);
        self.line(
            visibility_text(visibility).concat("struct ").concat(name).concat("(pub ").concat(inner_type).concat(
                ");",
            ).as_str(),
        );
    }

    /// Writes a use statement.
    pub fn use_stmt(&mut self, path: &str)
        ensures
            final(self).model() == lined(old(self).model(), "use "@ + path@ + ";"@),
    {
        self.line("use ".to_owned().concat(path).concat(";").as_str());
    }

    /// Writes a comment.
    pub fn comment(&mut self, text: &str)
        ensures
            final(self).model() == lined(old(self).model(), "// "@ + text@),
    {
        self.line("// ".to_owned().concat(text).as_str());
    }

    /// Writes a doc comment.
    pub fn doc_comment(&mut self, text: &str)
        ensures
            final(self).model() == lined(old(self).model(), "/// "@ + text@),
    {
        self.line("/// ".to_owned().concat(text).as_str());
    }
}

// ---------------------------------------------------------------------------
// Types, identifiers and operators
// ---------------------------------------------------------------------------

/// The first place of a character at or behind a place.
pub open spec fn char_place(text: Seq<char>, c: char, from: int) -> Option<int>
    decreases text.len() - from,
{
    if from < 0 || from >= text.len() {
        None
    } else if text[from] == c {
        Some(from)
    } else {
        char_place(text, c, from + 1)
    }
}

/// How a character changes the nesting depth.
pub open spec fn nesting(c: char) -> int {
    if c == '[' || c == '<' || c == '(' {
        1
    } else if c == ']' || c == '>' || c == ')' {
        -1
    } else {
        0
    }
}

/// The arguments between outermost commas: `at` is the next place, `start` where the current argument starts and
/// `depth` how deep it is nested.
pub open spec fn arguments(text: Seq<char>, at: int, start: int, depth: int, done: Seq<Seq<char>>) -> Seq<Seq<char>>
    decreases text.len() - at,
{
    if at < 0 || at >= text.len() {
        if start < text.len() {
            done.push(text.subrange(start, text.len() as int))
        } else {
            done
        }
    } else if text[at] == ',' && depth == 0 {
        arguments(text, at + 1, at + 1, depth, done.push(text.subrange(start, at)))
    } else {
        arguments(text, at + 1, start, depth + nesting(text[at]), done)
    }
}

/// The text between the first bracket and the last character.
pub open spec fn bracketed(ty: Seq<char>) -> Seq<char> {
    match char_place(ty, '[', 0) {
        Some(open) => ty.subrange(open + 1, ty.len() - 1),
        None => Seq::empty(),
    }
}

/// The arguments of a generic type.
pub open spec fn type_arguments(ty: Seq<char>) -> Seq<Seq<char>> {
    let parts = arguments(bracketed(ty), 0, 0, 0, Seq::empty());
    Seq::new(parts.len(), |i: int| trimmed(parts[i]))
}

/// The Rust type of a built-in name.
pub open spec fn built_in_type(ty: Seq<char>) -> Option<Seq<char>> {
    if ty == "int"@ {
        Some("i64"@)
    } else if ty == "float"@ {
        Some("f64"@)
    } else if ty == "bool"@ {
        Some("bool"@)
    } else if ty == "str"@ {
        Some("String"@)
    } else if ty == "bytes"@ {
        Some("Vec<u8>"@)
    } else if ty == "Unit"@ || ty == "None"@ {
        Some("()"@)
    } else if ty == "Semaphore"@ {
        Some("std::sync::Arc<tokio::sync::Semaphore>"@)
    } else if ty == "Barrier"@ {
        Some("std::sync::Arc<tokio::sync::Barrier>"@)
    } else {
        None
    }
}

/// The Rust type of a generic name with arguments.
pub open spec fn generic_type(name: Seq<char>, args: Seq<char>) -> Seq<char> {
    if name == "List"@ {
        "Vec<"@ + args + ">"@
    } else if name == "Dict"@ {
        "std::collections::HashMap<"@ + args + ">"@
    } else if name == "Set"@ {
        "std::collections::HashSet<"@ + args + ">"@
    } else if name == "Option"@ {
        "Option<"@ + args + ">"@
    } else if name == "Result"@ {
        "Result<"@ + args + ">"@
    } else if name == "Tuple"@ {
        "("@ + args + ")"@
    } else {
        name + "<"@ + args + ">"@
    }
}

/// Whether the brackets of a type, where it has any, enclose something and end in an ASCII character, and so on for
/// its arguments.
pub open spec fn convertible(ty: Seq<char>) -> bool
    decreases ty.len(),
{
    built_in_type(ty) is Some || match char_place(ty, '[', 0) {
        None => true,
        Some(open) => {
            &&& open < ty.len() - 1
            &&& (ty.last() as int) < 128
            &&& forall|i: int|
                0 <= i < type_arguments(ty).len() ==> {
                    let arg = #[trigger] type_arguments(ty)[i];
                    arg.len() < ty.len() ==> convertible(arg)
                }
        },
    }
}

/// The Rust type that an Incan type is written as.
pub open spec fn rust_type(ty: Seq<char>) -> Seq<char>
    decreases ty.len(), 1int,
{
    match built_in_type(ty) {
        Some(text) => text,
        None => match char_place(ty, '[', 0) {
            None => ty,
            Some(open) => generic_type(ty.take(open), joined(rust_types(type_arguments(ty), ty.len()), ", "@)),
        },
    }
}

/// The Rust types of some arguments that are shorter than a limit.
pub open spec fn rust_types(args: Seq<Seq<char>>, limit: nat) -> Seq<Seq<char>>
    decreases limit, 0int,
{
    Seq::new(
        args.len(),
        |i: int| if args[i].len() < limit {
            rust_type(args[i])
        } else {
            Seq::empty()
        },
    )
}

/// The identifier that a name is written as: reserved words are escaped.
pub open spec fn rust_ident(name: Seq<char>) -> Seq<char> {
    if name == "type"@ {
        "r#type"@
    } else if name == "match"@ {
        "r#match"@
    } else if name == "mod"@ {
        "r#mod"@
    } else if name == "ref"@ {
        "r#ref"@
    } else {
        name
    }
}

/// The operator that an operator is written as.
pub open spec fn rust_operator(op: Seq<char>) -> Seq<char> {
    if op == "and"@ {
        "&&"@
    } else if op == "or"@ {
        "||"@
    } else if op == "=="@ || op == "!="@ || op == "+"@ || op == "-"@ || op == "*"@ || op == "/"@ || op == "%"@ || op
        == "<"@ || op == ">"@ || op == "<="@ || op == ">="@ {
        op
    } else {
        "/* unknown op */"@
    }
}

/// Finds the first place of a character.
fn find_char(text: &Vec<char>, c: char) -> (place: Option<usize>)
    ensures
        char_place(text@, c, 0) == match place {
            Some(at) => Some(at as int),
            None => None,
        },
        place matches Some(at) ==> at < text@.len(),
{
    let mut at: usize = 0;
    while at < text.len()
        invariant
            at <= text@.len(),
            char_place(text@, c, 0) == char_place(text@, c, at as int),
        decreases text@.len() - at,
    {
        if text[at] == c {
            return Some(at);
        }
        at += 1;
    }
    None
}

/// Splits type arguments at outermost commas.
fn split_type_args(text: &Vec<char>) -> (parts: Vec<String>)
    ensures
        texts(parts@) == arguments(text@, 0, 0, 0, Seq::empty()),
        forall|i: int| 0 <= i < parts@.len() ==> (#[trigger] parts@[i])@.len() <= text@.len(),
{
    let mut parts: Vec<String> = Vec::new();
    let mut depth: i128 = 0;
    let mut start: usize = 0;
    let mut i: usize = 0;
    proof {
        assert(texts(parts@) =~= Seq::empty());
    }
    while i < text.len()
        invariant
            start <= i <= text@.len(),
            -(i as int) <= depth <= i,
            arguments(text@, 0, 0, 0, Seq::empty()) == arguments(
                text@,
                i as int,
                start as int,
                depth as int,
                texts(parts@),
            ),
            forall|k: int| 0 <= k < parts@.len() ==> (#[trigger] parts@[k])@.len() <= text@.len(),
        decreases text@.len() - i,
    {
        let c: char = text[i];
        if c == '[' || c == '<' || c == '(' {
            depth += 1;
        } else if c == ']' || c == '>' || c == ')' {
            depth -= 1;
        } else if c == ',' && depth == 0 {
            let ghost before = texts(parts@);
            let part: String = text_of(text, start, i);
            parts.push(part);
            proof {
                assert(texts(parts@) =~= before.push(part@));
            }
            start = i + 1;
        }
        i += 1;
    }
    if start < text.len() {
        let ghost before = texts(parts@);
        let part: String = text_of(text, start, text.len());
        parts.push(part);
        proof {
            assert(texts(parts@) =~= before.push(part@));
        }
    }
    parts
}

/// The Rust type of a built-in name.
fn built_in(ty: &str) -> (text: Option<&'static str>)
    ensures
        built_in_type(ty@) == match text {
            Some(text) => Some(text@),
            None => None,
        },
{
    if same_text(ty, "int") {
        Some("i64")
    } else if same_text(ty, "float") {
        Some("f64")
    } else if same_text(ty, "bool") {
        Some("bool")
    } else if same_text(ty, "str") {
        Some("String")
    } else if same_text(ty, "bytes") {
        Some("Vec<u8>")
    } else if same_text(ty, "Unit") || same_text(ty, "None") {
        Some("()")
    } else if same_text(ty, "Semaphore") {
        Some("std::sync::Arc<tokio::sync::Semaphore>")
    } else if same_text(ty, "Barrier") {
        Some("std::sync::Arc<tokio::sync::Barrier>")
    } else {
        None
    }
}

/// Maps an Incan type to the Rust type it is written as.
pub fn incan_type_to_rust(ty: &str) -> (text: String)
    requires
        convertible(ty@),
    ensures
        text@ == rust_type(ty@),
    decreases ty@.len(),
{
    match built_in(ty) {
        Some(text) => {
            return text.to_owned();
        },
        None => {},
    }
    let chars: Vec<char> = chars_of(ty);
    match find_char(&chars, '[') {
        None => ty.to_owned(),
        Some(open) => convert_generic_type(ty, &chars, open),
    }
}

/// Decides whether a type can be converted.
pub fn is_convertible(ty: &str) -> (yes: bool)
    ensures
        yes == convertible(ty@),
    decreases ty@.len(),
{
    match built_in(ty) {
        Some(_) => {
            return true;
        },
        None => {},
    }
    let chars: Vec<char> = chars_of(ty);
    let count: usize = chars.len();
    let open: usize = match find_char(&chars, '[') {
        None => {
            return true;
        },
        Some(open) => open,
    };
    if open >= count - 1 || !is_ascii(chars[count - 1]) {
        return false;
    }
    let inner_text: String = text_of(&chars, open + 1, count - 1);
    let inner: Vec<char> = chars_of(inner_text.as_str());
    let parts: Vec<String> = split_type_args(&inner);
    let ghost args = type_arguments(ty@);
    let mut i: usize = 0;
    proof {
        assert(inner@ == bracketed(ty@));
        assert(args.len() == parts@.len());
    }
    while i < parts.len()
        invariant
            i <= parts@.len(),
            args.len() == parts@.len(),
            args == type_arguments(ty@),
            texts(parts@) == arguments(bracketed(ty@), 0, 0, 0, Seq::empty()),
            forall|k: int| 0 <= k < parts@.len() ==> (#[trigger] parts@[k])@.len() < ty@.len(),
            built_in_type(ty@) is None,
            char_place(ty@, '[', 0) is Some,
            forall|k: int| 0 <= k < i ==> convertible(#[trigger] args[k]),
        decreases parts@.len() - i,
    {
        let arg: String = trim(parts[i].as_str());
        proof {
            assert(texts(parts@)[i as int] == parts@[i as int]@);
            assert(arg@ == args[i as int]);
            lemma_trimmed_is_no_longer(parts@[i as int]@);
        }
        if !is_convertible(arg.as_str()) {
            return false;
        }
        i += 1;
    }
    true
}

/// Decides whether a character is an ASCII character.
fn is_ascii(c: char) -> (yes: bool)
    ensures
        yes == ((c as int) < 128),
{
    (c as u32) < 128
}

/// Maps an Incan type to the Rust type it is written as, or reports `None` where it cannot be converted.
pub fn attempt_type_to_rust(ty: &str) -> (text: Option<String>)
    ensures
        match text {
            Some(text) => convertible(ty@) && text@ == rust_type(ty@),
            None => !convertible(ty@),
        },
{
    if is_convertible(ty) {
        Some(incan_type_to_rust(ty))
    } else {
        None
    }
}

/// Converts a generic type.
fn convert_generic_type(ty: &str, chars: &Vec<char>, open: usize) -> (text: String)
    requires
        chars@ == ty@,
        convertible(ty@),
        built_in_type(ty@) is None,
        open < chars@.len(),
        char_place(ty@, '[', 0) == Some(open as int),
    ensures
        text@ == rust_type(ty@),
    decreases ty@.len(), 0int,
{
    let count: usize = chars.len();
    let inner_text: String = text_of(chars, open + 1, count - 1);
    let inner: Vec<char> = chars_of(inner_text.as_str());
    let parts: Vec<String> = split_type_args(&inner);
    let ghost args = type_arguments(ty@);
    let mut converted: Vec<String> = Vec::new();
    let mut i: usize = 0;
    proof {
        assert(inner@ == bracketed(ty@));
        assert(args.len() == parts@.len());
    }
    while i < parts.len()
        invariant
            i <= parts@.len(),
            args.len() == parts@.len(),
            args == type_arguments(ty@),
            texts(parts@) == arguments(bracketed(ty@), 0, 0, 0, Seq::empty()),
            forall|k: int| 0 <= k < parts@.len() ==> (#[trigger] parts@[k])@.len() < ty@.len(),
            convertible(ty@),
            built_in_type(ty@) is None,
            char_place(ty@, '[', 0) is Some,
            converted@.len() == i,
            forall|k: int| 0 <= k < i ==> (#[trigger] converted@[k])@ == rust_type(args[k]) && args[k].len() < ty@.len(),
        decreases parts@.len() - i,
    {
        let arg: String = trim(parts[i].as_str());
        proof {
            assert(texts(parts@)[i as int] == parts@[i as int]@);
            assert(arg@ == args[i as int]);
            lemma_trimmed_is_no_longer(parts@[i as int]@);
        }
        converted.push(incan_type_to_rust(arg.as_str()));
        i += 1;
    }
    proof {
        assert(texts(converted@) =~= rust_types(args, ty@.len()));
        assert(chars@.subrange(0, open as int) =~= ty@.take(open as int));
    }
    let list: String = join(&converted, ", ");
    let name: String = text_of(chars, 0, open);
    if same_text(name.as_str(), "List") {
        "Vec<".to_owned().concat(list.as_str()).concat(">")
    } else if same_text(name.as_str(), "Dict") {
        "std::collections::HashMap<".to_owned().concat(list.as_str()).concat(">")
    } else if same_text(name.as_str(), "Set") {
        "std::collections::HashSet<".to_owned().concat(list.as_str()).concat(">")
    } else if same_text(name.as_str(), "Option") {
        "Option<".to_owned().concat(list.as_str()).concat(">")
    } else if same_text(name.as_str(), "Result") {
        "Result<".to_owned().concat(list.as_str()).concat(">")
    } else if same_text(name.as_str(), "Tuple") {
        "(".to_owned().concat(list.as_str()).concat(")")
    } else {
        name.concat("<").concat(list.as_str()).concat(">")
    }
}

/// Converts an Incan identifier to a Rust identifier.
pub fn to_rust_ident(name: &str) -> (ident: String)
    ensures
        ident@ == rust_ident(name@),
{
    if same_text(name, "type") {
        "r#type".to_owned()
    } else if same_text(name, "match") {
        "r#match".to_owned()
    } else if same_text(name, "mod") {
        "r#mod".to_owned()
    } else if same_text(name, "ref") {
        "r#ref".to_owned()
    } else {
        name.to_owned()
    }
}

/// Converts an Incan binary operator to a Rust operator.
pub fn binary_op_to_rust(op: &str) -> (operator: &'static str)
    ensures
        operator@ == rust_operator(op@),
{
    if same_text(op, "and") {
        "&&"
    } else if same_text(op, "or") {
        "||"
    } else if same_text(op, "==") {
        "=="
    } else if same_text(op, "!=") {
        "!="
    } else if same_text(op, "+") {
        "+"
    } else if same_text(op, "-") {
        "-"
    } else if same_text(op, "*") {
        "*"
    } else if same_text(op, "/") {
        "/"
    } else if same_text(op, "%") {
        "%"
    } else if same_text(op, "<") {
        "<"
    } else if same_text(op, ">") {
        ">"
    } else if same_text(op, "<=") {
        "<="
    } else if same_text(op, ">=") {
        ">="
    } else {
        "/* unknown op */"
    }
}

// ---------------------------------------------------------------------------
// Laws
// ---------------------------------------------------------------------------

/// Indenting less undoes indenting deeper.
pub proof fn law_dedent_undoes_indent(m: EmitterModel)
    ensures
        shallower(deeper(m)) == m,
{
}

/// A block whose body leaves the indentation as it found it leaves the indentation outside it alone, and closes with
/// a brace as deep as its header.
pub proof fn law_block_restores_indentation(m: EmitterModel, header: Seq<char>, end: EmitterModel)
    requires
        end.level == opened(m, header).level,
        end.unit == m.unit,
    ensures
        closed(end).level == m.level,
        closed(end).text == end.text + indentation(m.unit, m.level) + "}"@ + "\n"@,
{
}

proof fn fields_keep_level(m: EmitterModel, fields: Seq<(String, String)>, from: int)
    ensures
        fielded(m, fields, from) == (EmitterModel { text: fielded(m, fields, from).text, ..m }),
        fielded(m, fields, from).text.len() >= m.text.len(),
        fielded(m, fields, from).text.take(m.text.len() as int) == m.text,
    decreases fields.len() - from,
{
    if 0 <= from < fields.len() {
        let next = lined(m, "pub "@ + fields[from].0@ + ": "@ + fields[from].1@ + ","@);
        fields_keep_level(next, fields, from + 1);
        let end = fielded(next, fields, from + 1);
        assert(next.text.take(m.text.len() as int) =~= m.text);
        assert(end.text.take(m.text.len() as int) =~= end.text.take(next.text.len() as int).take(
            m.text.len() as int,
        ));
    } else {
        assert(m.text.take(m.text.len() as int) =~= m.text);
    }
}

/// Writing a struct only adds text: what was written stands, and the indentation is as before.
pub proof fn law_struct_only_adds_text(
    m: EmitterModel,
    derives: Seq<Seq<char>>,
    visibility: Seq<char>,
    name: Seq<char>,
    fields: Seq<(String, String)>,
)
    ensures
        ({
            let end = struct_written(m, derives, visibility, name, fields);
            &&& end == EmitterModel { text: end.text, ..m }
            &&& end.text.len() >= m.text.len()
            &&& end.text.take(m.text.len() as int) == m.text
        }),
{
    let start = derived(m, derives);
    assert(start.text.take(m.text.len() as int) =~= m.text);
    let end = struct_written(m, derives, visibility, name, fields);
    if fields.len() == 0 {
        assert(end.text.take(m.text.len() as int) =~= start.text.take(m.text.len() as int));
    } else {
        let inside = opened(start, visibility_prefix(visibility) + "struct "@ + name);
        fields_keep_level(inside, fields, 0);
        let body = fielded(inside, fields, 0);
        assert(inside.text.take(m.text.len() as int) =~= start.text.take(m.text.len() as int));
        assert(body.text.take(m.text.len() as int) =~= body.text.take(inside.text.len() as int).take(
            m.text.len() as int,
        ));
        assert(end.text.take(m.text.len() as int) =~= body.text.take(m.text.len() as int));
    }
}

} // verus!
