use vstd::prelude::*;

use crate::ast::{ExprM, ModuleExportName, ModuleItemM, PropEntryM, PropForm, PropKey, SpecifierM};
use crate::pattern::pattern_matches;

verus! {

/// A binding identity: spelling and syntax context.
pub type IdM = (Seq<char>, u32);

/// Whether some pattern of `pats` matches the key text.
pub open spec fn key_removed(pats: Seq<Seq<char>>, key: Seq<char>) -> bool {
    exists|i: int| 0 <= i < pats.len() && pattern_matches(pats[i], key)
}

/// The key text of an entry whose key can be read statically: a shorthand,
/// key-value or method entry with an identifier-shaped key.
pub open spec fn static_key(p: PropEntryM) -> Option<Seq<char>> {
    match p.key {
        PropKey::Ident(s) => if p.form == PropForm::Shorthand || p.form == PropForm::KeyValue
            || p.form == PropForm::Method {
            Some(s@)
        } else {
            None
        },
        _ => None,
    }
}

/// Whether the filter keeps the entry.
pub open spec fn entry_kept(pats: Seq<Seq<char>>, p: PropEntryM) -> bool {
    match static_key(p) {
        Some(k) => !key_removed(pats, k),
        None => true,
    }
}

/// The entries that the filter keeps, in their order.
pub open spec fn filter_entries(pats: Seq<Seq<char>>, s: Seq<PropEntryM>) -> Seq<PropEntryM>
    decreases s.len(),
{
    if s.len() == 0 {
        s
    } else {
        let r = filter_entries(pats, s.drop_last());
        if entry_kept(pats, s.last()) {
            r.push(s.last())
        } else {
            r
        }
    }
}

/// An object literal with its removable entries taken out; any other
/// expression as it is.
pub open spec fn filter_object(pats: Seq<Seq<char>>, e: ExprM) -> ExprM {
    match e {
        ExprM::Object(es) => ExprM::Object(filter_entries(pats, es)),
        _ => e,
    }
}

/// Whether a call with this callee and these arguments creates an intrinsic
/// element: the callee is a binding known as a factory, and the call has at
/// least two arguments, the first a string literal.
pub open spec fn is_intrinsic_call(aliases: Set<IdM>, callee: ExprM, args: Seq<ExprM>) -> bool {
    &&& callee matches ExprM::Ident(id)
    &&& aliases.contains(id)
    &&& args.len() >= 2
    &&& args[0] matches ExprM::Str(_)
}

/// The rewrite of each expression of `s`.
pub open spec fn transform_all(aliases: Set<IdM>, pats: Seq<Seq<char>>, s: Seq<ExprM>) -> Seq<ExprM>
    decreases s, 0nat,
{
    Seq::new(
        s.len(),
        |i: int|
            if 0 <= i < s.len() {
                transform(aliases, pats, s[i])
            } else {
                ExprM::Num(0)
            },
    )
}

/// The rewrite of an entry: its children rewritten.
pub open spec fn transform_entry(aliases: Set<IdM>, pats: Seq<Seq<char>>, p: PropEntryM) -> PropEntryM
    decreases p, 1nat,
{
    PropEntryM { form: p.form, key: p.key, children: transform_all(aliases, pats, p.children) }
}

/// The rewrite of each entry of `s`.
pub open spec fn transform_entries(aliases: Set<IdM>, pats: Seq<Seq<char>>, s: Seq<PropEntryM>) -> Seq<PropEntryM>
    decreases s, 0nat,
{
    Seq::new(
        s.len(),
        |i: int|
            if 0 <= i < s.len() {
                transform_entry(aliases, pats, s[i])
            } else {
                PropEntryM { form: PropForm::Spread, key: PropKey::Absent, children: Seq::empty() }
            },
    )
}

/// The rewrite of an expression, with the factory bindings `aliases` and the
/// removal patterns `pats`: every call nested in it, at any depth, is
/// matched and filtered.
pub open spec fn transform(aliases: Set<IdM>, pats: Seq<Seq<char>>, e: ExprM) -> ExprM
    decreases e, 1nat,
{
    match e {
        ExprM::Object(es) => ExprM::Object(transform_entries(aliases, pats, es)),
        ExprM::Array(v) => ExprM::Array(transform_all(aliases, pats, v)),
        ExprM::Call(callee, args) => {
            let t = transform_all(aliases, pats, args);
            let t1 = if is_intrinsic_call(aliases, *callee, args) {
                t.update(1, filter_object(pats, t[1]))
            } else {
                t
            };
            ExprM::Call(Box::new(transform(aliases, pats, *callee)), t1)
        },
        ExprM::Other(v) => ExprM::Other(transform_all(aliases, pats, v)),
        _ => e,
    }
}

/// The name an import specifier is matched by: the imported name when one is
/// written, as an identifier or as a string literal; else the local name.
pub open spec fn imported_name(s: SpecifierM) -> Seq<char> {
    match s.1 {
        Some(ModuleExportName::Ident(n)) => n@,
        Some(ModuleExportName::Str(n)) => n@,
        None => s.0.0,
    }
}

/// The factory bindings after one import specifier.
pub open spec fn record_import(names: Seq<Seq<char>>, aliases: Set<IdM>, s: SpecifierM) -> Set<IdM> {
    if names.contains(imported_name(s)) {
        aliases.insert(s.0)
    } else {
        aliases
    }
}

/// The factory bindings after the specifiers of one import declaration.
pub open spec fn record_imports(names: Seq<Seq<char>>, aliases: Set<IdM>, s: Seq<SpecifierM>) -> Set<IdM>
    decreases s.len(),
{
    if s.len() == 0 {
        aliases
    } else {
        record_import(names, record_imports(names, aliases, s.drop_last()), s.last())
    }
}

/// The factory bindings after the first `n` items of a module.
pub open spec fn aliases_after(names: Seq<Seq<char>>, aliases: Set<IdM>, items: Seq<ModuleItemM>, n: int) -> Set<IdM>
    decreases n,
{
    if n <= 0 {
        aliases
    } else {
        let a = aliases_after(names, aliases, items, n - 1);
        match items[n - 1] {
            ModuleItemM::Import(s) => record_imports(names, a, s),
            ModuleItemM::Stmt(_) => a,
        }
    }
}

/// One item after the rewrite, with the factory bindings known when it is reached.
pub open spec fn transform_item(aliases: Set<IdM>, pats: Seq<Seq<char>>, item: ModuleItemM) -> ModuleItemM {
    match item {
        ModuleItemM::Import(s) => item,
        ModuleItemM::Stmt(e) => ModuleItemM::Stmt(transform(aliases, pats, e)),
    }
}

/// A module after the rewrite: one walk in source order, each import
/// extending the factory bindings for the items after it.
pub open spec fn transform_module(names: Seq<Seq<char>>, pats: Seq<Seq<char>>, aliases: Set<IdM>, items: Seq<ModuleItemM>) -> Seq<ModuleItemM> {
    Seq::new(
        items.len(),
        |i: int| transform_item(aliases_after(names, aliases, items, i), pats, items[i]),
    )
}

/// Each expression of `s` with every binding reference `x` written `f(x)`.
pub open spec fn rename_all(f: spec_fn(IdM) -> IdM, s: Seq<ExprM>) -> Seq<ExprM>
    decreases s, 0nat,
{
    Seq::new(
        s.len(),
        |i: int|
            if 0 <= i < s.len() {
                rename(f, s[i])
            } else {
                ExprM::Num(0)
            },
    )
}

/// An entry with every binding reference in its children renamed by `f`.
pub open spec fn rename_entry(f: spec_fn(IdM) -> IdM, p: PropEntryM) -> PropEntryM
    decreases p, 1nat,
{
    PropEntryM { form: p.form, key: p.key, children: rename_all(f, p.children) }
}

/// Each entry of `s` renamed by `f`.
pub open spec fn rename_entries(f: spec_fn(IdM) -> IdM, s: Seq<PropEntryM>) -> Seq<PropEntryM>
    decreases s, 0nat,
{
    Seq::new(
        s.len(),
        |i: int|
            if 0 <= i < s.len() {
                rename_entry(f, s[i])
            } else {
                PropEntryM { form: PropForm::Spread, key: PropKey::Absent, children: Seq::empty() }
            },
    )
}

/// An expression with every binding reference `x`, at any depth, written `f(x)`.
pub open spec fn rename(f: spec_fn(IdM) -> IdM, e: ExprM) -> ExprM
    decreases e, 1nat,
{
    match e {
        ExprM::Ident(id) => ExprM::Ident(f(id)),
        ExprM::Object(es) => ExprM::Object(rename_entries(f, es)),
        ExprM::Array(v) => ExprM::Array(rename_all(f, v)),
        ExprM::Call(callee, args) => ExprM::Call(Box::new(rename(f, *callee)), rename_all(f, args)),
        ExprM::Other(v) => ExprM::Other(rename_all(f, v)),
        _ => e,
    }
}

} // verus!