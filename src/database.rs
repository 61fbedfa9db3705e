//! The store: the modules of each project and the memo of their diagnostics.
//!
//! The diagnostics of a module (the findings of the escape-hatch pass) are
//! computed on the first request, kept behind a shared handle, and handed out
//! again for later requests without being computed again. They depend on the
//! module's own tree alone, so a change to a module drops the memo of that
//! module and of no other.
//!
//! Requests take the store by `&mut`, so they are served one at a time: where
//! several threads share one store behind a lock, the first request for a
//! module computes and the others get its handle. The handles themselves are
//! `Arc`s and may be read from any number of threads.
use std::sync::Arc;
use vstd::prelude::*;

use crate::ast::AST;
use crate::diagnostic::{views, Diagnostic};
use crate::modules::{find_module, has_module, is_key, module_ast, module_index, unique_keys, ModuleEntry};
use crate::passes::{compute_eqwalizer_stats, module_findings, pass_findings, PassId};

verus! {

struct CacheEntry {
    project: u32,
    module: String,
    diagnostics: Arc<Vec<Diagnostic>>,
}

/// The handle kept for a key: the last entry with that key.
spec fn lookup(entries: Seq<CacheEntry>, project: u32, name: Seq<char>) -> Option<Arc<Vec<Diagnostic>>>
    decreases entries.len(),
{
    if entries.len() == 0 {
        None
    } else if entries.last().project == project && entries.last().module@ == name {
        Some(entries.last().diagnostics)
    } else {
        lookup(entries.drop_last(), project, name)
    }
}

/// The entries under other keys, in order.
spec fn without_key(entries: Seq<CacheEntry>, project: u32, name: Seq<char>) -> Seq<CacheEntry>
    decreases entries.len(),
{
    if entries.len() == 0 {
        Seq::empty()
    } else {
        let rest = without_key(entries.drop_last(), project, name);
        if entries.last().project == project && entries.last().module@ == name {
            rest
        } else {
            rest.push(entries.last())
        }
    }
}

proof fn lemma_lookup_without(
    entries: Seq<CacheEntry>,
    project: u32,
    name: Seq<char>,
    q: u32,
    m: Seq<char>,
)
    ensures
        lookup(without_key(entries, project, name), q, m) == if q == project && m == name {
            None
        } else {
            lookup(entries, q, m)
        },
    decreases entries.len(),
{
    if entries.len() > 0 {
        lemma_lookup_without(entries.drop_last(), project, name, q, m);
        let rest = without_key(entries.drop_last(), project, name);
        assert(rest.push(entries.last()).drop_last() =~= rest);
    }
}

/// Replacing or adding the module `name` of `project` changes nothing for the
/// modules under other keys.
proof fn lemma_other_module(
    old_mods: Seq<ModuleEntry>,
    new_mods: Seq<ModuleEntry>,
    project: u32,
    name: Seq<char>,
    q: u32,
    m: Seq<char>,
)
    requires
        unique_keys(old_mods),
        unique_keys(new_mods),
        !(q == project && m == name),
        new_mods.len() >= old_mods.len(),
        forall|i: int|
            0 <= i < old_mods.len() && !is_key(old_mods[i], project, name) ==> #[trigger] new_mods[i]
                == old_mods[i],
        forall|i: int|
            0 <= i < new_mods.len() && (i >= old_mods.len() || is_key(old_mods[i], project, name))
                ==> is_key(#[trigger] new_mods[i], project, name),
    ensures
        has_module(new_mods, q, m) == has_module(old_mods, q, m),
        has_module(old_mods, q, m) ==> module_ast(new_mods, q, m) == module_ast(old_mods, q, m),
{
    if has_module(old_mods, q, m) {
        let i = module_index(old_mods, q, m);
        assert(is_key(new_mods[i], q, m));
        let j = module_index(new_mods, q, m);
        assert(new_mods[j].project == new_mods[i].project && new_mods[j].name@ == new_mods[i].name@);
    }
    if has_module(new_mods, q, m) {
        let j = module_index(new_mods, q, m);
        assert(is_key(old_mods[j], q, m));
    }
}

/// The modules of the projects, and the memo of their diagnostics.
pub struct Database {
    modules: Vec<ModuleEntry>,
    cache: Vec<CacheEntry>,
    computations: u64,
}

impl Database {
    /// The modules, each under a unique key.
    pub closed spec fn modules(&self) -> Seq<ModuleEntry> {
        self.modules@
    }

    /// How many times the diagnostics of some module were computed.
    pub closed spec fn computations(&self) -> u64 {
        self.computations
    }

    /// The shared handle kept for a module, if any.
    pub closed spec fn cached(&self, project: u32, name: Seq<char>) -> Option<Arc<Vec<Diagnostic>>> {
        lookup(self.cache@, project, name)
    }

    /// Keys are unique, and every kept handle holds the findings of
    /// the module as it stands now.
    pub closed spec fn wf(&self) -> bool {
        &&& unique_keys(self.modules@)
        &&& forall|p: u32, m: Seq<char>|
            #[trigger] lookup(self.cache@, p, m) is Some ==> has_module(self.modules@, p, m) && views(
                (*lookup(self.cache@, p, m)->Some_0)@,
            ) == module_findings(self.modules@, p, m)
    }

    /// An empty store.
    pub fn new() -> (r: Database)
        ensures
            r.wf(),
            r.modules() == Seq::<ModuleEntry>::empty(),
            r.computations() == 0,
            forall|p: u32, m: Seq<char>| #[trigger] r.cached(p, m) is None,
    {
        Database { modules: Vec::new(), cache: Vec::new(), computations: 0 }
    }

    /// Whether the project has a module of this name.
    pub fn has_module(&self, project: u32, name: &String) -> (r: bool)
        requires
            self.wf(),
        ensures
            r == has_module(self.modules(), project, name@),
    {
        find_module(&self.modules, project, name).is_some()
    }

    /// The syntax tree of a module, or `None` where the project has no module
    /// of that name.
    pub fn get_ast(&self, project: u32, name: &String) -> (r: Option<&AST>)
        requires
            self.wf(),
        ensures
            r matches Some(a) ==> has_module(self.modules(), project, name@) && *a == module_ast(
                self.modules(),
                project,
                name@,
            ),
            r is None <==> !has_module(self.modules(), project, name@),
    {
        match find_module(&self.modules, project, name) {
            Some(i) => Some(&self.modules[i].ast),
            None => None,
        }
    }

    /// How many times the diagnostics of some module were computed.
    pub fn computation_count(&self) -> (r: u64)
        ensures
            r == self.computations(),
    {
        self.computations
    }

    /// Puts a module in place, or adds it, and drops the memo of that module.
    pub fn set_module(&mut self, project: u32, name: String, ast: AST)
        requires
            old(self).wf(),
        ensures
            changed(*old(self), *final(self), project, name, ast),
    {
        let ghost old_mods = self.modules@;
        let ghost old_cache = self.cache@;
        let key = name.clone();
        let found = find_module(&self.modules, project, &name);
        let ghost entry = ModuleEntry { project, name, ast };
        match found {
            Some(i) => {
                self.modules.set(i, ModuleEntry { project, name, ast });
                proof {
                    assert(self.modules@ == old_mods.update(i as int, entry));
                    assert forall|a: int, b: int|
                        #![trigger self.modules@[a], self.modules@[b]]
                        0 <= a < self.modules@.len() && 0 <= b < self.modules@.len()
                            && self.modules@[a].project == self.modules@[b].project
                            && self.modules@[a].name@ == self.modules@[b].name@ implies a == b by {
                        assert(old_mods[a].project == old_mods[b].project && old_mods[a].name@
                            == old_mods[b].name@);
                    }
                }
            },
            None => {
                self.modules.push(ModuleEntry { project, name, ast });
                proof {
                    assert forall|a: int, b: int|
                        #![trigger self.modules@[a], self.modules@[b]]
                        0 <= a < self.modules@.len() && 0 <= b < self.modules@.len()
                            && self.modules@[a].project == self.modules@[b].project
                            && self.modules@[a].name@ == self.modules@[b].name@ implies a == b by {
                        if a < old_mods.len() && b < old_mods.len() {
                            assert(old_mods[a].project == old_mods[b].project && old_mods[a].name@
                                == old_mods[b].name@);
                        } else if a < old_mods.len() {
                            assert(is_key(old_mods[a], project, entry.name@));
                        } else if b < old_mods.len() {
                            assert(is_key(old_mods[b], project, entry.name@));
                        }
                    }
                }
            },
        }
        let mut old_entries: Vec<CacheEntry> = Vec::new();
        std::mem::swap(&mut self.cache, &mut old_entries);
        let mut kept: Vec<CacheEntry> = Vec::new();
        proof {
            assert(old_cache.take(0) =~= Seq::<CacheEntry>::empty());
        }
        for e in it: old_entries.into_iter()
            invariant
                it.seq() == old_cache,
                kept@ == without_key(old_cache.take(it.index() as int), project, key@),
                key@ == entry.name@,
        {
            proof {
                assert(old_cache.take(it.index() + 1).drop_last() =~= old_cache.take(it.index() as int));
            }
            if !(e.project == project && e.module == key) {
                kept.push(e);
            }
        }
        proof {
            assert(old_cache.take(old_cache.len() as int) =~= old_cache);
        }
        self.cache = kept;
        proof {
            let new_mods = self.modules@;
            assert forall|p: u32, m: Seq<char>|
                #[trigger] self.cached(p, m) == if p == project && m == entry.name@ {
                    None
                } else {
                    old(self).cached(p, m)
                } by {
                lemma_lookup_without(old_cache, project, entry.name@, p, m);
            }
            assert forall|p: u32, m: Seq<char>|
                #[trigger] lookup(self.cache@, p, m) is Some implies has_module(new_mods, p, m) && views(
                    (*lookup(self.cache@, p, m)->Some_0)@,
                ) == module_findings(new_mods, p, m) by {
                lemma_lookup_without(old_cache, project, entry.name@, p, m);
                assert(lookup(old_cache, p, m) == lookup(self.cache@, p, m));
                lemma_other_module(old_mods, new_mods, project, entry.name@, p, m);
            }
            let k = if has_module(old_mods, project, entry.name@) {
                module_index(old_mods, project, entry.name@)
            } else {
                old_mods.len() as int
            };
            assert(is_key(new_mods[k], project, entry.name@));
            let j = module_index(new_mods, project, entry.name@);
            assert(new_mods[j].project == new_mods[k].project && new_mods[j].name@ == new_mods[k].name@);
        }
    }

    fn cache_index(&self, project: u32, module: &String) -> (r: Option<usize>)
        ensures
            r matches Some(i) ==> i < self.cache@.len() && lookup(self.cache@, project, module@) == Some(
                self.cache@[i as int].diagnostics,
            ),
            r is None ==> lookup(self.cache@, project, module@) is None,
    {
        let mut i: usize = self.cache.len();
        proof {
            assert(self.cache@.take(i as int) =~= self.cache@);
        }
        while i > 0
            invariant
                i <= self.cache@.len(),
                lookup(self.cache@, project, module@) == lookup(self.cache@.take(i as int), project, module@),
            decreases i,
        {
            proof {
                assert(self.cache@.take(i as int).drop_last() =~= self.cache@.take(i - 1));
            }
            if self.cache[i - 1].project == project && self.cache[i - 1].module == *module {
                return Some(i - 1);
            }
            i = i - 1;
        }
        None
    }

    /// Runs one pass on a module, without the memo.
    pub fn run_pass(&self, pass: PassId, project: u32, module: &String) -> (r: Vec<Diagnostic>)
        requires
            self.wf(),
            has_module(self.modules(), project, module@),
        ensures
            views(r@) == pass_findings(self.modules(), pass, project, module@),
    {
        crate::passes::run_pass(&self.modules, pass, project, module)
    }

    /// The diagnostics of a module, computed on the first request and kept
    /// behind a shared handle: a later request, while the project is
    /// unchanged, gets the same handle back and computes nothing.
    pub fn get_diagnostics(&mut self, project: u32, module: &String) -> (r: Arc<Vec<Diagnostic>>)
        requires
            old(self).wf(),
            has_module(old(self).modules(), project, module@),
        ensures
            served(*old(self), *final(self), project, module@, r),
    {
        match self.cache_index(project, module) {
            Some(i) => self.cache[i].diagnostics.clone(),
            None => {
                let diagnostics = compute_eqwalizer_stats(&self.modules, project, module);
                if self.computations < u64::MAX {
                    self.computations = self.computations + 1;
                }
                let ghost old_cache = self.cache@;
                self.cache.push(
                    CacheEntry { project, module: module.clone(), diagnostics: diagnostics.clone() },
                );
                proof {
                    assert(self.cache@.drop_last() =~= old_cache);
                    assert forall|p: u32, m: Seq<char>|
                        #[trigger] lookup(self.cache@, p, m) is Some implies has_module(self.modules@, p, m)
                            && views((*lookup(self.cache@, p, m)->Some_0)@) == module_findings(
                            self.modules@,
                            p,
                            m,
                        ) by {
                        if !(p == project && m == module@) {
                            assert(lookup(self.cache@, p, m) == lookup(old_cache, p, m));
                        }
                    }
                }
                diagnostics
            },
        }
    }
}

/// What putting `ast` in place as the module `name` of `project` leaves
/// behind: the module replaced where it was, added at the end where it was
/// not; the memo of that module dropped and every other kept, since what the
/// store keeps for a module depends on that module's tree alone.
pub open spec fn changed(before: Database, after: Database, project: u32, name: String, ast: AST) -> bool {
    &&& after.wf()
    &&& has_module(after.modules(), project, name@)
    &&& module_ast(after.modules(), project, name@) == ast
    &&& has_module(before.modules(), project, name@) ==> after.modules() == before.modules().update(
        module_index(before.modules(), project, name@),
        (ModuleEntry { project, name, ast }),
    )
    &&& !has_module(before.modules(), project, name@) ==> after.modules() == before.modules().push(
        (ModuleEntry { project, name, ast }),
    )
    &&& forall|p: u32, m: Seq<char>|
        #[trigger] after.cached(p, m) == if p == project && m == name@ {
            None
        } else {
            before.cached(p, m)
        }
    &&& after.computations() == before.computations()
}

/// What a request for the diagnostics of the module `name` of `project`
/// leaves behind, with `r` the handle it returned: the modules unchanged; `r`
/// holds the module's findings as it stands; `r` is kept for the
/// module; where a handle was kept already, `r` is that handle and nothing was
/// computed, else the count of computations went up by one (it stops at
/// `u64::MAX`); the memo of every other module is unchanged.
pub open spec fn served(
    before: Database,
    after: Database,
    project: u32,
    name: Seq<char>,
    r: Arc<Vec<Diagnostic>>,
) -> bool {
    &&& after.wf()
    &&& after.modules() == before.modules()
    &&& views((*r)@) == module_findings(before.modules(), project, name)
    &&& after.cached(project, name) == Some(r)
    &&& before.cached(project, name) matches Some(h) ==> r == h && after.computations()
        == before.computations()
    &&& before.cached(project, name) is None ==> after.computations() == if before.computations()
        < u64::MAX {
        before.computations() + 1
    } else {
        before.computations() as int
    }
    &&& forall|p: u32, m: Seq<char>|
        !(p == project && m == name) ==> #[trigger] after.cached(p, m) == before.cached(p, m)
}

/// Two requests for the same module with no change in between: the second
/// gets the very handle of the first and computes nothing.
pub proof fn repeated_request_is_shared(
    d0: Database,
    d1: Database,
    d2: Database,
    project: u32,
    name: Seq<char>,
    r1: Arc<Vec<Diagnostic>>,
    r2: Arc<Vec<Diagnostic>>,
)
    requires
        served(d0, d1, project, name, r1),
        served(d1, d2, project, name, r2),
    ensures
        r2 == r1,
        d2.computations() == d1.computations(),
        d2.modules() == d0.modules(),
{
}

/// After a change to a module, the next request for it holds the findings of
/// the new content and computes once; a request after that computes
/// nothing more and gets the same handle.
pub proof fn change_is_seen_once(
    d0: Database,
    d1: Database,
    d2: Database,
    d3: Database,
    project: u32,
    name: String,
    ast: AST,
    r2: Arc<Vec<Diagnostic>>,
    r3: Arc<Vec<Diagnostic>>,
)
    requires
        changed(d0, d1, project, name, ast),
        served(d1, d2, project, name@, r2),
        served(d2, d3, project, name@, r3),
        d1.computations() < u64::MAX,
    ensures
        views((*r2)@) == module_findings(d1.modules(), project, name@),
        d2.computations() == d1.computations() + 1,
        r3 == r2,
        d3.computations() == d2.computations(),
{
}

/// A change to another module leaves the memo of a module alone: the next
/// request for it gets the handle it got before and computes nothing.
pub proof fn change_elsewhere_keeps_memo(
    d0: Database,
    d1: Database,
    d2: Database,
    d3: Database,
    project: u32,
    name: Seq<char>,
    other_project: u32,
    other_name: String,
    ast: AST,
    r1: Arc<Vec<Diagnostic>>,
    r3: Arc<Vec<Diagnostic>>,
)
    requires
        served(d0, d1, project, name, r1),
        changed(d1, d2, other_project, other_name, ast),
        !(other_project == project && other_name@ == name),
        served(d2, d3, project, name, r3),
    ensures
        r3 == r1,
        d3.computations() == d1.computations(),
{
}

} // verus!
