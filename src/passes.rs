//! Analysis passes. Each one reads one module, and may look up the other
//! modules of its project, and appends its findings to a list.
use std::sync::Arc;
use vstd::prelude::*;

use crate::ast::{ExternalForm, Location, RemoteId, AST};
use crate::calls::{calls_forms, remote_calls, CallSite};
use crate::diagnostic::{lemma_views_push, views, Diagnostic, DiagnosticView, Severity};
use crate::modules::{find_module, has_module, is_key, module_ast, module_index, unique_keys, ModuleEntry};

verus! {

/// The analysis passes, listed in the order in which their findings are
/// concatenated for a module.
#[derive(Clone, Copy, Debug, PartialEq, Eq)]
pub enum PassId {
    /// Constructs that switch the type checker off.
    EscapeHatches,
    /// Remote calls to functions that no module of the project defines.
    UndefinedFunction,
}

// ------------------------------------------------------------ escape hatches

pub open spec fn nowarn_view(location: Location) -> DiagnosticView {
    DiagnosticView {
        code: "eqwalizer_nowarn"@,
        message: "Type checking is switched off for this function."@,
        severity: Severity::Information,
        location,
    }
}

pub open spec fn fixme_view(location: Location) -> DiagnosticView {
    DiagnosticView {
        code: "eqwalizer_fixme"@,
        message: "A fixme comment silences type errors here."@,
        severity: Severity::Information,
        location,
    }
}

pub open spec fn cast_view(location: Location) -> DiagnosticView {
    DiagnosticView {
        code: "eqwalizer_dynamic_cast"@,
        message: "The value of a dynamic cast is not type-checked."@,
        severity: Severity::Information,
        location,
    }
}

/// The escape hatches that a form is by itself.
pub open spec fn form_hatches(f: ExternalForm) -> Seq<DiagnosticView> {
    match f {
        ExternalForm::EqwalizerNowarnFunction(x) => seq![nowarn_view(x.location)],
        ExternalForm::ElpMetadata(x) => x.fixmes@.map_values(|l: Location| fixme_view(l)),
        _ => Seq::empty(),
    }
}

pub open spec fn forms_hatches(forms: Seq<ExternalForm>) -> Seq<DiagnosticView>
    decreases forms.len(),
{
    if forms.len() == 0 {
        Seq::empty()
    } else {
        forms_hatches(forms.drop_last()) + form_hatches(forms.last())
    }
}

pub open spec fn is_dynamic_cast(id: RemoteId) -> bool {
    id.module@ == "eqwalizer"@ && id.name@ == "dynamic_cast"@ && id.arity == 1
}

pub open spec fn cast_hatches(calls: Seq<CallSite>) -> Seq<DiagnosticView>
    decreases calls.len(),
{
    if calls.len() == 0 {
        Seq::empty()
    } else {
        let rest = cast_hatches(calls.drop_last());
        if is_dynamic_cast(calls.last().id) {
            rest.push(cast_view(calls.last().location))
        } else {
            rest
        }
    }
}

/// The escape hatches of a module: attributes and fixme comments in form
/// order, then dynamic casts in the order the walk meets them.
pub open spec fn escape_hatches_of(ast: Seq<ExternalForm>) -> Seq<DiagnosticView> {
    forms_hatches(ast) + cast_hatches(calls_forms(Seq::empty(), ast))
}

// ------------------------------------------------------------ undefined functions

pub open spec fn defines_fun(f: ExternalForm, name: Seq<char>, arity: u32) -> bool {
    f matches ExternalForm::FunDecl(d) && d.id.name@ == name && d.id.arity == arity
}

/// Whether some form of the module defines `name/arity`.
pub open spec fn ast_defines(forms: Seq<ExternalForm>, name: Seq<char>, arity: u32) -> bool {
    exists|j: int| 0 <= j < forms.len() && #[trigger] defines_fun(forms[j], name, arity)
}

/// Whether the project has the module that `id` names, and that module
/// defines the function.
pub open spec fn project_defines(mods: Seq<ModuleEntry>, project: u32, id: RemoteId) -> bool {
    has_module(mods, project, id.module@) && ast_defines(
        module_ast(mods, project, id.module@)@,
        id.name@,
        id.arity,
    )
}

pub open spec fn digit(d: nat) -> Seq<char> {
    if d == 0 {
        "0"@
    } else if d == 1 {
        "1"@
    } else if d == 2 {
        "2"@
    } else if d == 3 {
        "3"@
    } else if d == 4 {
        "4"@
    } else if d == 5 {
        "5"@
    } else if d == 6 {
        "6"@
    } else if d == 7 {
        "7"@
    } else if d == 8 {
        "8"@
    } else {
        "9"@
    }
}

/// The decimal digits of `n`.
pub open spec fn decimal(n: nat) -> Seq<char>
    decreases n,
{
    if n < 10 {
        digit(n)
    } else {
        decimal(n / 10) + digit(n % 10)
    }
}

/// `Function 'm:f/a' is undefined.`
pub open spec fn undefined_message(id: RemoteId) -> Seq<char> {
    "Function '"@ + id.module@ + ":"@ + id.name@ + "/"@ + decimal(id.arity as nat) + "' is undefined."@
}

pub open spec fn undefined_view(c: CallSite) -> DiagnosticView {
    DiagnosticView {
        code: "W0017"@,
        message: undefined_message(c.id),
        severity: Severity::Warning,
        location: c.location,
    }
}

/// One finding per call, in order, whose target the project does not define.
pub open spec fn undefined_calls(
    mods: Seq<ModuleEntry>,
    project: u32,
    calls: Seq<CallSite>,
) -> Seq<DiagnosticView>
    decreases calls.len(),
{
    if calls.len() == 0 {
        Seq::empty()
    } else {
        let rest = undefined_calls(mods, project, calls.drop_last());
        if project_defines(mods, project, calls.last().id) {
            rest
        } else {
            rest.push(undefined_view(calls.last()))
        }
    }
}

// ------------------------------------------------------------ what the passes find

/// The findings of one pass on the module `name` of `project`.
pub open spec fn pass_findings(
    mods: Seq<ModuleEntry>,
    pass: PassId,
    project: u32,
    name: Seq<char>,
) -> Seq<DiagnosticView> {
    let ast = module_ast(mods, project, name)@;
    match pass {
        PassId::EscapeHatches => escape_hatches_of(ast),
        PassId::UndefinedFunction => undefined_calls(mods, project, calls_forms(Seq::empty(), ast)),
    }
}

/// The findings that the store computes and keeps for a module: those of the
/// escape-hatch pass, the one pass registered with the store. They depend on
/// the module's own tree alone. The undefined-function pass is run on request
/// through `run_pass`.
pub open spec fn module_findings(mods: Seq<ModuleEntry>, project: u32, name: Seq<char>) -> Seq<DiagnosticView> {
    escape_hatches_of(module_ast(mods, project, name)@)
}

// ------------------------------------------------------------ executable passes

fn code_and_message(code: &str, message: &str, severity: Severity, location: Location) -> (r: Diagnostic)
    ensures
        r@ == (DiagnosticView { code: code@, message: message@, severity, location }),
{
    Diagnostic { code: String::from_str(code), message: String::from_str(message), severity, location }
}

fn push_form_hatches(form: &ExternalForm, out: &mut Vec<Diagnostic>)
    ensures
        views(final(out)@) == views(old(out)@) + form_hatches(*form),
{
    let ghost start = views(out@);
    match form {
        ExternalForm::EqwalizerNowarnFunction(x) => {
            let d = code_and_message(
                "eqwalizer_nowarn",
                "Type checking is switched off for this function.",
                Severity::Information,
                x.location,
            );
            proof {
                lemma_views_push(out@, d);
            }
            out.push(d);
            proof {
                assert(views(out@) =~= start + form_hatches(*form));
            }
        },
        ExternalForm::ElpMetadata(x) => {
            let mut j: usize = 0;
            while j < x.fixmes.len()
                invariant
                    j <= x.fixmes@.len(),
                    views(out@) == start + x.fixmes@.take(j as int).map_values(|l: Location| fixme_view(l)),
                decreases x.fixmes@.len() - j,
            {
                let d = code_and_message(
                    "eqwalizer_fixme",
                    "A fixme comment silences type errors here.",
                    Severity::Information,
                    x.fixmes[j],
                );
                proof {
                    lemma_views_push(out@, d);
                    assert(x.fixmes@.take(j + 1).map_values(|l: Location| fixme_view(l)) =~= x.fixmes@.take(
                        j as int,
                    ).map_values(|l: Location| fixme_view(l)).push(fixme_view(x.fixmes@[j as int])));
                }
                out.push(d);
                j = j + 1;
            }
            proof {
                assert(x.fixmes@.take(j as int) =~= x.fixmes@);
            }
        },
        _ => {
            proof {
                assert(views(out@) =~= start + form_hatches(*form));
            }
        },
    }
}

/// Finds the escape hatches of the module `module` of `project`: nowarn
/// attributes and fixme comments, then dynamic casts.
pub fn escape_hatches(
    modules: &Vec<ModuleEntry>,
    diagnostics: &mut Vec<Diagnostic>,
    project: u32,
    module: &String,
)
    requires
        unique_keys(modules@),
        has_module(modules@, project, module@),
    ensures
        views(final(diagnostics)@) == views(old(diagnostics)@) + pass_findings(
            modules@,
            PassId::EscapeHatches,
            project,
            module@,
        ),
{
    let ghost start = views(diagnostics@);
    let i = find_module(modules, project, module).unwrap();
    let ast = &modules[i].ast;
    let mut k: usize = 0;
    while k < ast.len()
        invariant
            k <= ast@.len(),
            views(diagnostics@) == start + forms_hatches(ast@.take(k as int)),
        decreases ast@.len() - k,
    {
        let ghost before = views(diagnostics@);
        push_form_hatches(&ast[k], diagnostics);
        proof {
            assert(ast@.take(k + 1).drop_last() =~= ast@.take(k as int));
            assert(views(diagnostics@) =~= start + forms_hatches(ast@.take(k + 1)));
        }
        k = k + 1;
    }
    proof {
        assert(ast@.take(k as int) =~= ast@);
    }
    let calls = remote_calls(ast);
    let module_name = String::from_str("eqwalizer");
    let cast_name = String::from_str("dynamic_cast");
    let ghost mid = views(diagnostics@);
    let mut c: usize = 0;
    while c < calls.len()
        invariant
            c <= calls@.len(),
            module_name@ == "eqwalizer"@,
            cast_name@ == "dynamic_cast"@,
            views(diagnostics@) == mid + cast_hatches(calls@.take(c as int)),
        decreases calls@.len() - c,
    {
        proof {
            assert(calls@.take(c + 1).drop_last() =~= calls@.take(c as int));
        }
        let site = &calls[c];
        if site.id.module == module_name && site.id.name == cast_name && site.id.arity == 1 {
            let d = code_and_message(
                "eqwalizer_dynamic_cast",
                "The value of a dynamic cast is not type-checked.",
                Severity::Information,
                site.location,
            );
            proof {
                lemma_views_push(diagnostics@, d);
            }
            diagnostics.push(d);
        }
        proof {
            assert(views(diagnostics@) =~= mid + cast_hatches(calls@.take(c + 1)));
        }
        c = c + 1;
    }
    proof {
        assert(calls@.take(c as int) =~= calls@);
        assert(views(diagnostics@) =~= start + escape_hatches_of(ast@));
    }
}

fn digit_text(d: u32) -> (r: &'static str)
    requires
        d < 10,
    ensures
        r@ == digit(d as nat),
{
    if d == 0 {
        "0"
    } else if d == 1 {
        "1"
    } else if d == 2 {
        "2"
    } else if d == 3 {
        "3"
    } else if d == 4 {
        "4"
    } else if d == 5 {
        "5"
    } else if d == 6 {
        "6"
    } else if d == 7 {
        "7"
    } else if d == 8 {
        "8"
    } else {
        "9"
    }
}

fn push_decimal(s: &mut String, n: u32)
    ensures
        final(s)@ == old(s)@ + decimal(n as nat),
    decreases n,
{
    if n >= 10 {
        push_decimal(s, n / 10);
    }
    s.append(digit_text(n % 10));
    proof {
        if n >= 10 {
            assert(old(s)@ + decimal(n as nat) =~= old(s)@ + decimal((n / 10) as nat) + digit((n % 10) as nat));
        }
    }
}

fn undefined_text(id: &RemoteId) -> (r: String)
    ensures
        r@ == undefined_message(*id),
{
    let mut s = String::from_str("Function '");
    s.append(id.module.as_str());
    s.append(":");
    s.append(id.name.as_str());
    s.append("/");
    push_decimal(&mut s, id.arity);
    s.append("' is undefined.");
    s
}

fn ast_defines_fun(ast: &AST, name: &String, arity: u32) -> (r: bool)
    ensures
        r == ast_defines(ast@, name@, arity),
{
    let mut j: usize = 0;
    while j < ast.len()
        invariant
            j <= ast@.len(),
            forall|k: int| 0 <= k < j ==> !defines_fun(#[trigger] ast@[k], name@, arity),
        decreases ast@.len() - j,
    {
        if let ExternalForm::FunDecl(d) = &ast[j] {
            if d.id.name == *name && d.id.arity == arity {
                assert(defines_fun(ast@[j as int], name@, arity));
                return true;
            }
        }
        j = j + 1;
    }
    false
}

fn defines(modules: &Vec<ModuleEntry>, project: u32, id: &RemoteId) -> (r: bool)
    requires
        unique_keys(modules@),
    ensures
        r == project_defines(modules@, project, *id),
{
    match find_module(modules, project, &id.module) {
        None => false,
        Some(i) => ast_defines_fun(&modules[i].ast, &id.name, id.arity),
    }
}

/// Reports each remote call of the module `module` of `project` whose target
/// no module of the project defines. Local calls are left to the compiler.
pub fn undefined_function(
    modules: &Vec<ModuleEntry>,
    diagnostics: &mut Vec<Diagnostic>,
    project: u32,
    module: &String,
)
    requires
        unique_keys(modules@),
        has_module(modules@, project, module@),
    ensures
        views(final(diagnostics)@) == views(old(diagnostics)@) + pass_findings(
            modules@,
            PassId::UndefinedFunction,
            project,
            module@,
        ),
{
    let ghost start = views(diagnostics@);
    let i = find_module(modules, project, module).unwrap();
    let calls = remote_calls(&modules[i].ast);
    proof {
        assert(views(diagnostics@) =~= start + undefined_calls(modules@, project, calls@.take(0)));
    }
    let mut c: usize = 0;
    while c < calls.len()
        invariant
            c <= calls@.len(),
            unique_keys(modules@),
            views(diagnostics@) == start + undefined_calls(modules@, project, calls@.take(c as int)),
        decreases calls@.len() - c,
    {
        proof {
            assert(calls@.take(c + 1).drop_last() =~= calls@.take(c as int));
        }
        let site = &calls[c];
        if !defines(modules, project, &site.id) {
            let d = Diagnostic {
                code: String::from_str("W0017"),
                message: undefined_text(&site.id),
                severity: Severity::Warning,
                location: site.location,
            };
            proof {
                lemma_views_push(diagnostics@, d);
            }
            diagnostics.push(d);
        }
        proof {
            assert(views(diagnostics@) =~= start + undefined_calls(modules@, project, calls@.take(c + 1)));
        }
        c = c + 1;
    }
    proof {
        assert(calls@.take(c as int) =~= calls@);
    }
}

/// Runs one pass on the module `module` of `project`, without the store's
/// memo, and returns its findings.
pub fn run_pass(modules: &Vec<ModuleEntry>, pass: PassId, project: u32, module: &String) -> (r: Vec<
    Diagnostic,
>)
    requires
        unique_keys(modules@),
        has_module(modules@, project, module@),
    ensures
        views(r@) == pass_findings(modules@, pass, project, module@),
{
    let mut out: Vec<Diagnostic> = Vec::new();
    proof {
        assert(views(out@) =~= Seq::<DiagnosticView>::empty());
    }
    match pass {
        PassId::EscapeHatches => escape_hatches(modules, &mut out, project, module),
        PassId::UndefinedFunction => undefined_function(modules, &mut out, project, module),
    }
    proof {
        assert(views(out@) =~= pass_findings(modules@, pass, project, module@));
    }
    out
}

/// Runs the escape-hatch pass on a module and puts its findings, in the
/// order they were found, behind a shared handle.
pub fn compute_eqwalizer_stats(modules: &Vec<ModuleEntry>, project: u32, module: &String) -> (r: Arc<
    Vec<Diagnostic>,
>)
    requires
        unique_keys(modules@),
        has_module(modules@, project, module@),
    ensures
        views((*r)@) == pass_findings(modules@, PassId::EscapeHatches, project, module@),
        views((*r)@) == module_findings(modules@, project, module@),
{
    let mut out: Vec<Diagnostic> = Vec::new();
    proof {
        assert(views(out@) =~= Seq::<DiagnosticView>::empty());
    }
    escape_hatches(modules, &mut out, project, module);
    proof {
        assert(views(out@) =~= module_findings(modules@, project, module@));
    }
    Arc::new(out)
}

} // verus!
