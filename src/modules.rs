//! The modules of the projects that the store holds, each under a
//! (project, module name) key.
use vstd::prelude::*;

use crate::ast::AST;

verus! {

/// One module of one project.
#[derive(Debug)]
pub struct ModuleEntry {
    pub project: u32,
    pub name: String,
    pub ast: AST,
}

pub open spec fn is_key(e: ModuleEntry, project: u32, name: Seq<char>) -> bool {
    e.project == project && e.name@ == name
}

/// No two entries have the same key.
pub open spec fn unique_keys(mods: Seq<ModuleEntry>) -> bool {
    forall|i: int, j: int|
        #![trigger mods[i], mods[j]]
        0 <= i < mods.len() && 0 <= j < mods.len() && mods[i].project == mods[j].project
            && mods[i].name@ == mods[j].name@ ==> i == j
}

pub open spec fn has_module(mods: Seq<ModuleEntry>, project: u32, name: Seq<char>) -> bool {
    exists|i: int| 0 <= i < mods.len() && is_key(#[trigger] mods[i], project, name)
}

/// Where the module with this key stands.
pub open spec fn module_index(mods: Seq<ModuleEntry>, project: u32, name: Seq<char>) -> int {
    choose|i: int| 0 <= i < mods.len() && is_key(#[trigger] mods[i], project, name)
}

/// The syntax tree of the module with this key.
pub open spec fn module_ast(mods: Seq<ModuleEntry>, project: u32, name: Seq<char>) -> AST {
    mods[module_index(mods, project, name)].ast
}

/// Finds the module with this key.
pub fn find_module(mods: &Vec<ModuleEntry>, project: u32, name: &String) -> (r: Option<usize>)
    requires
        unique_keys(mods@),
    ensures
        r matches Some(i) ==> i < mods@.len() && is_key(mods@[i as int], project, name@) && i
            == module_index(mods@, project, name@),
        r is None <==> !has_module(mods@, project, name@),
{
    let mut i: usize = 0;
    while i < mods.len()
        invariant
            i <= mods@.len(),
            unique_keys(mods@),
            forall|j: int| 0 <= j < i ==> !is_key(#[trigger] mods@[j], project, name@),
        decreases mods@.len() - i,
    {
        if mods[i].project == project && mods[i].name == *name {
            proof {
                assert(is_key(mods@[i as int], project, name@));
                let k = module_index(mods@, project, name@);
                assert(0 <= k < mods@.len() && is_key(mods@[k], project, name@));
                assert(mods@[k].project == mods@[i as int].project && mods@[k].name@ == mods@[i as int].name@);
            }
            return Some(i);
        }
        i = i + 1;
    }
    None
}

} // verus!
