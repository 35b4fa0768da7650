//! What the imports of a program ask for.

use crate::ast::{Declaration, ImportKind, Program, Spanned};
use crate::text::{same_text, texts};
use vstd::prelude::*;

verus! {

broadcast use vstd::string::group_string_axioms;

/// The Rust crate that a declaration imports. The standard library is no dependency.
pub open spec fn imported_crate(decl: Declaration) -> Option<Seq<char>> {
    match decl {
        Declaration::Import(import) => match import.kind {
            ImportKind::RustCrate { crate_name, .. } => if crate_name@ == "std"@ {
                None
            } else {
                Some(crate_name@)
            },
            ImportKind::RustFrom { crate_name, .. } => if crate_name@ == "std"@ {
                None
            } else {
                Some(crate_name@)
            },
            _ => None,
        },
        _ => None,
    }
}

/// The crates that the declarations from one on import, behind those found so far, each in its first place.
pub open spec fn crate_names(decls: Seq<Spanned<Declaration>>, from: int, found: Seq<Seq<char>>) -> Seq<Seq<char>>
    decreases decls.len() - from,
{
    if from < 0 || from >= decls.len() {
        found
    } else {
        match imported_crate(decls[from].node) {
            Some(name) => if found.contains(name) {
                crate_names(decls, from + 1, found)
            } else {
                crate_names(decls, from + 1, found.push(name))
            },
            None => crate_names(decls, from + 1, found),
        }
    }
}

/// The Rust crate that a declaration imports.
fn crate_of(decl: &Declaration) -> (name: Option<&String>)
    ensures
        imported_crate(*decl) == match name {
            Some(name) => Some(name@),
            None => None,
        },
{
    match decl {
        Declaration::Import(import) => match &import.kind {
            ImportKind::RustCrate { crate_name, .. } => if same_text(crate_name.as_str(), "std") {
                None
            } else {
                Some(crate_name)
            },
            ImportKind::RustFrom { crate_name, .. } => if same_text(crate_name.as_str(), "std") {
                None
            } else {
                Some(crate_name)
            },
            _ => None,
        },
        _ => None,
    }
}

/// Decides whether a name is in a list.
pub(crate) fn lists(names: &Vec<String>, name: &str) -> (found: bool)
    ensures
        found == texts(names@).contains(name@),
{
    let mut i: usize = 0;
    while i < names.len()
        invariant
            i <= names@.len(),
            forall|j: int| 0 <= j < i ==> (#[trigger] names@[j])@ != name@,
        decreases names@.len() - i,
    {
        if same_text(names[i].as_str(), name) {
            proof {
                assert(texts(names@)[i as int] == name@);
            }
            return true;
        }
        i += 1;
    }
    false
}

/// Collects the Rust crates that a program imports, in the order of their first import.
pub fn collect_rust_crates(ast: &Program) -> (crates: Vec<String>)
    ensures
        texts(crates@) == crate_names(ast.declarations@, 0, Seq::empty()),
{
    let decls: &Vec<Spanned<Declaration>> = &ast.declarations;
    let mut crates: Vec<String> = Vec::new();
    let mut i: usize = 0;
    proof {
        assert(texts(crates@) =~= Seq::empty());
    }
    while i < decls.len()
        invariant
            i <= decls@.len(),
            crate_names(decls@, 0, Seq::empty()) == crate_names(decls@, i as int, texts(crates@)),
        decreases decls@.len() - i,
    {
        match crate_of(&decls[i].node) {
            Some(name) => {
                if !lists(&crates, name.as_str()) {
                    let ghost before = texts(crates@);
                    crates.push(name.clone());
                    proof {
                        assert(texts(crates@) =~= before.push(name@));
                    }
                }
            },
            None => {},
        }
        i += 1;
    }
    crates
}

proof fn crates_listed(decls: Seq<Spanned<Declaration>>, from: int, found: Seq<Seq<char>>)
    requires
        0 <= from <= decls.len(),
        found.no_duplicates(),
    ensures
        crate_names(decls, from, found).no_duplicates(),
        forall|name: Seq<char>|
            #[trigger] crate_names(decls, from, found).contains(name) <==> found.contains(name) || exists|i: int|
                from <= i < decls.len() && imported_crate((#[trigger] decls[i]).node) == Some(name),
    decreases decls.len() - from,
{
    if from < decls.len() {
        let crate_name = imported_crate(decls[from].node);
        let next = match crate_name {
            Some(name) => if found.contains(name) {
                found
            } else {
                found.push(name)
            },
            None => found,
        };
        crates_listed(decls, from + 1, next);
        assert forall|name: Seq<char>|
            #[trigger] crate_names(decls, from, found).contains(name) <==> found.contains(name) || exists|i: int|
                from <= i < decls.len() && imported_crate((#[trigger] decls[i]).node) == Some(name) by {
            assert(next.contains(name) <==> found.contains(name) || crate_name == Some(name)) by {
                if found.contains(name) {
                    let i = choose|i: int| 0 <= i < found.len() && found[i] == name;
                    assert(next[i] == name);
                }
                if crate_name == Some(name) && !found.contains(name) {
                    assert(next[found.len() as int] == name);
                }
                if next.contains(name) && !found.contains(name) {
                    let i = choose|i: int| 0 <= i < next.len() && next[i] == name;
                    if i < found.len() {
                        assert(found[i] == name);
                    }
                }
            }
            if crate_name == Some(name) {
                assert(imported_crate(decls[from].node) == Some(name));
            }
        }
    }
}

/// The collected crates are exactly the imported ones besides the standard library, each listed once.
pub proof fn law_crates_are_listed_once(decls: Seq<Spanned<Declaration>>)
    ensures
        crate_names(decls, 0, Seq::empty()).no_duplicates(),
        forall|name: Seq<char>|
            #[trigger] crate_names(decls, 0, Seq::empty()).contains(name) <==> exists|i: int|
                0 <= i < decls.len() && imported_crate((#[trigger] decls[i]).node) == Some(name),
        !crate_names(decls, 0, Seq::empty()).contains("std"@),
{
    crates_listed(decls, 0, Seq::empty());
}

} // verus!
