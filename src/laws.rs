use vstd::prelude::*;

use crate::ast::{ExprM, ModuleExportName, ModuleItemM, PropEntryM};
use crate::rules::{
    aliases_after, entry_kept, filter_entries, filter_object, is_intrinsic_call, record_import,
    rename, rename_all, rename_entries, rename_entry, static_key, transform, transform_all,
    transform_entries, transform_entry, transform_module, IdM,
};

verus! {

/// The rewrite keeps the form and key of an entry, so the filter decides
/// alike before and after it.
pub proof fn lemma_entry_kept_transform(aliases: Set<IdM>, pats: Seq<Seq<char>>, p: PropEntryM)
    ensures
        entry_kept(pats, transform_entry(aliases, pats, p)) == entry_kept(pats, p),
{
}

/// Every entry that the filter returns is one it keeps, and each comes from the input.
pub proof fn lemma_filter_kept(pats: Seq<Seq<char>>, s: Seq<PropEntryM>)
    ensures
        forall|k: int| 0 <= k < filter_entries(pats, s).len() ==> entry_kept(pats, #[trigger] filter_entries(pats, s)[k]),
        filter_entries(pats, s).len() <= s.len(),
    decreases s.len(),
{
    if s.len() > 0 {
        lemma_filter_kept(pats, s.drop_last());
    }
}

/// The filter leaves alone a list whose entries it all keeps.
pub proof fn lemma_filter_all_kept(pats: Seq<Seq<char>>, s: Seq<PropEntryM>)
    requires
        forall|k: int| 0 <= k < s.len() ==> entry_kept(pats, #[trigger] s[k]),
    ensures
        filter_entries(pats, s) == s,
    decreases s.len(),
{
    if s.len() > 0 {
        lemma_filter_all_kept(pats, s.drop_last());
        assert(s.drop_last().push(s.last()) =~= s);
    }
}

/// Filtering twice is filtering once.
pub proof fn lemma_filter_idempotent(pats: Seq<Seq<char>>, s: Seq<PropEntryM>)
    ensures
        filter_entries(pats, filter_entries(pats, s)) == filter_entries(pats, s),
{
    lemma_filter_kept(pats, s);
    lemma_filter_all_kept(pats, filter_entries(pats, s));
}

/// Rewriting the entries and filtering them may be done in either order.
pub proof fn lemma_filter_transform_commute(aliases: Set<IdM>, pats: Seq<Seq<char>>, s: Seq<PropEntryM>)
    ensures
        transform_entries(aliases, pats, filter_entries(pats, s)) == filter_entries(pats, transform_entries(aliases, pats, s)),
    decreases s.len(),
{
    if s.len() > 0 {
        let t = transform_entries(aliases, pats, s);
        lemma_filter_transform_commute(aliases, pats, s.drop_last());
        assert(t.drop_last() =~= transform_entries(aliases, pats, s.drop_last()));
        lemma_entry_kept_transform(aliases, pats, s.last());
        let f = filter_entries(pats, s.drop_last());
        assert(transform_entries(aliases, pats, f.push(s.last())) =~= transform_entries(aliases, pats, f).push(
            transform_entry(aliases, pats, s.last()),
        ));
    } else {
        assert(transform_entries(aliases, pats, s) =~= s);
    }
}

/// On an expression that the rewrite leaves as it is, rewriting the
/// filtered expression and filtering again gives the filtered expression.
proof fn lemma_filter_object_stable(aliases: Set<IdM>, pats: Seq<Seq<char>>, x: ExprM)
    requires
        transform(aliases, pats, x) == x,
    ensures
        filter_object(pats, transform(aliases, pats, filter_object(pats, x))) == filter_object(pats, x),
{
    match x {
        ExprM::Object(es) => {
            assert(transform_entries(aliases, pats, es) == es);
            lemma_filter_transform_commute(aliases, pats, es);
            lemma_filter_idempotent(pats, es);
        },
        _ => {},
    }
}

/// The rewrite keeps whether a call is an intrinsic factory call.
proof fn lemma_intrinsic_stable(aliases: Set<IdM>, pats: Seq<Seq<char>>, callee: ExprM, args: Seq<ExprM>, t1: Seq<ExprM>)
    requires
        t1.len() == args.len(),
        args.len() > 0 ==> t1[0] == transform(aliases, pats, args[0]),
    ensures
        is_intrinsic_call(aliases, transform(aliases, pats, callee), t1) == is_intrinsic_call(aliases, callee, args),
{
}

/// Rewriting each expression of a list twice is rewriting it once.
pub proof fn lemma_transform_all_idempotent(aliases: Set<IdM>, pats: Seq<Seq<char>>, s: Seq<ExprM>)
    ensures
        transform_all(aliases, pats, transform_all(aliases, pats, s)) == transform_all(aliases, pats, s),
    decreases s, 0nat,
{
    let t = transform_all(aliases, pats, s);
    assert forall|i: int| 0 <= i < s.len() implies transform(aliases, pats, #[trigger] t[i]) == t[i] by {
        lemma_transform_idempotent(aliases, pats, s[i]);
    }
    assert(transform_all(aliases, pats, t) =~= t);
}

/// Rewriting each entry of a list twice is rewriting it once.
pub proof fn lemma_transform_entries_idempotent(aliases: Set<IdM>, pats: Seq<Seq<char>>, s: Seq<PropEntryM>)
    ensures
        transform_entries(aliases, pats, transform_entries(aliases, pats, s)) == transform_entries(aliases, pats, s),
    decreases s, 0nat,
{
    let t = transform_entries(aliases, pats, s);
    assert forall|i: int| 0 <= i < s.len() implies transform_entry(aliases, pats, #[trigger] t[i]) == t[i] by {
        lemma_transform_all_idempotent(aliases, pats, s[i].children);
    }
    assert(transform_entries(aliases, pats, t) =~= t);
}

/// Running the rewrite on its own output changes nothing: what it removed
/// cannot match again, and what it kept it keeps.
pub proof fn lemma_transform_idempotent(aliases: Set<IdM>, pats: Seq<Seq<char>>, e: ExprM)
    ensures
        transform(aliases, pats, transform(aliases, pats, e)) == transform(aliases, pats, e),
    decreases e, 1nat,
{
    match e {
        ExprM::Object(es) => {
            lemma_transform_entries_idempotent(aliases, pats, es);
        },
        ExprM::Array(v) => {
            lemma_transform_all_idempotent(aliases, pats, v);
        },
        ExprM::Other(v) => {
            lemma_transform_all_idempotent(aliases, pats, v);
        },
        ExprM::Call(callee, args) => {
            lemma_transform_idempotent(aliases, pats, *callee);
            lemma_transform_all_idempotent(aliases, pats, args);
            let t = transform_all(aliases, pats, args);
            let intrinsic = is_intrinsic_call(aliases, *callee, args);
            let t1 = if intrinsic {
                t.update(1, filter_object(pats, t[1]))
            } else {
                t
            };
            lemma_intrinsic_stable(aliases, pats, *callee, args, t1);
            let u = transform_all(aliases, pats, t1);
            if intrinsic {
                lemma_filter_object_stable(aliases, pats, t[1]);
                assert forall|i: int| 0 <= i < t1.len() && i != 1 implies #[trigger] u[i] == t1[i] by {
                    assert(transform(aliases, pats, t[i]) == transform_all(aliases, pats, t)[i]);
                }
                assert(u.update(1, filter_object(pats, u[1])) =~= t1);
            } else {
                assert(u =~= t1);
            }
        },
        _ => {},
    }
}

/// The rewrite leaves imports as they are, so the factory bindings known
/// at each item are the same before and after it.
proof fn lemma_aliases_after_transform(
    names: Seq<Seq<char>>,
    pats: Seq<Seq<char>>,
    aliases: Set<IdM>,
    items: Seq<ModuleItemM>,
    n: int,
)
    requires
        0 <= n <= items.len(),
    ensures
        aliases_after(names, aliases, transform_module(names, pats, aliases, items), n) == aliases_after(names, aliases, items, n),
    decreases n,
{
    if n > 0 {
        lemma_aliases_after_transform(names, pats, aliases, items, n - 1);
    }
}

/// Running the pass twice over a module gives what running it once gives.
pub proof fn lemma_module_idempotent(
    names: Seq<Seq<char>>,
    pats: Seq<Seq<char>>,
    aliases: Set<IdM>,
    items: Seq<ModuleItemM>,
)
    ensures
        transform_module(names, pats, aliases, transform_module(names, pats, aliases, items))
            == transform_module(names, pats, aliases, items),
{
    let once = transform_module(names, pats, aliases, items);
    assert forall|i: int| 0 <= i < items.len() implies #[trigger] transform_module(names, pats, aliases, once)[i] == once[i] by {
        lemma_aliases_after_transform(names, pats, aliases, items, i);
        match items[i] {
            ModuleItemM::Stmt(e) => lemma_transform_idempotent(aliases_after(names, aliases, items, i), pats, e),
            ModuleItemM::Import(_) => {},
        }
    }
    assert(transform_module(names, pats, aliases, once) =~= once);
}

/// A call through a local name that imports a factory under an alias is
/// recognised exactly when a call through the factory's own name, imported
/// without renaming, would be: what counts is the binding, not its spelling.
pub proof fn lemma_alias_independence(
    names: Seq<Seq<char>>,
    aliases: Set<IdM>,
    imported: String,
    plain_ctxt: u32,
    alias: IdM,
    args: Seq<ExprM>,
)
    requires
        !aliases.contains(alias),
        !aliases.contains((imported@, plain_ctxt)),
    ensures
        is_intrinsic_call(
            record_import(names, aliases, (alias, Some(ModuleExportName::Ident(imported)))),
            ExprM::Ident(alias),
            args,
        ) == is_intrinsic_call(
            record_import(names, aliases, ((imported@, plain_ctxt), None)),
            ExprM::Ident((imported@, plain_ctxt)),
            args,
        ),
        is_intrinsic_call(
            record_import(names, aliases, (alias, Some(ModuleExportName::Ident(imported)))),
            ExprM::Ident(alias),
            args,
        ) == (names.contains(imported@) && args.len() >= 2 && args[0] matches ExprM::Str(_)),
{
}

/// A call through a factory binding with at least two arguments: when the
/// first is a string literal, the properties object keeps no entry that the
/// patterns remove; otherwise the properties argument is only rewritten
/// inside, and an object there keeps every entry, with its form and key.
pub proof fn lemma_tag_gating(aliases: Set<IdM>, pats: Seq<Seq<char>>, id: IdM, args: Seq<ExprM>)
    requires
        aliases.contains(id),
        args.len() >= 2,
    ensures
        transform(aliases, pats, ExprM::Call(Box::new(ExprM::Ident(id)), args)) matches ExprM::Call(_, out) && ({
            &&& out.len() == args.len()
            &&& args[0] matches ExprM::Str(_) ==> {
                &&& out[1] == filter_object(pats, transform(aliases, pats, args[1]))
                &&& out[1] matches ExprM::Object(es) ==> forall|k: int| 0 <= k < es.len() ==> entry_kept(pats, #[trigger] es[k])
            }
            &&& !(args[0] matches ExprM::Str(_)) ==> {
                &&& out[1] == transform(aliases, pats, args[1])
                &&& args[1] matches ExprM::Object(es) ==> out[1] matches ExprM::Object(es2) && es2.len() == es.len()
                    && forall|k: int| 0 <= k < es.len() ==> (#[trigger] es2[k]).form == es[k].form && es2[k].key == es[k].key
            }
        }),
{
    let callee = ExprM::Ident(id);
    let t = transform_all(aliases, pats, args);
    assert(t[1] == transform(aliases, pats, args[1]));
    assert(t[0] == transform(aliases, pats, args[0]));
    if args[0] matches ExprM::Str(_) {
        assert(is_intrinsic_call(aliases, callee, args));
        match t[1] {
            ExprM::Object(es) => lemma_filter_kept(pats, es),
            _ => {},
        }
    } else {
        assert(!is_intrinsic_call(aliases, callee, args));
        match args[1] {
            ExprM::Object(es) => {
                let es2 = transform_entries(aliases, pats, es);
                assert(t[1] == ExprM::Object(es2));
                assert forall|k: int| 0 <= k < es.len() implies (#[trigger] es2[k]).form == es[k].form && es2[k].key == es[k].key by {
                    assert(es2[k] == transform_entry(aliases, pats, es[k]));
                }
            },
            _ => {},
        }
    }
}

/// An entry whose key cannot be read statically (a computed or literal key,
/// a spread, an accessor) survives the filter whatever the patterns.
pub proof fn lemma_conservative_keys(pats: Seq<Seq<char>>, s: Seq<PropEntryM>, i: int)
    requires
        0 <= i < s.len(),
        static_key(s[i]) is None,
    ensures
        filter_entries(pats, s).contains(s[i]),
    decreases s.len(),
{
    let f = filter_entries(pats, s);
    if i == s.len() - 1 {
        assert(f.last() == s[i]);
    } else {
        lemma_conservative_keys(pats, s.drop_last(), i);
        let f0 = filter_entries(pats, s.drop_last());
        let k = choose|k: int| 0 <= k < f0.len() && f0[k] == s[i];
        if entry_kept(pats, s.last()) {
            assert(f[k] == s[i]);
        }
    }
}

/// The rewrite reaches every nested expression alike: the elements of an
/// array, the children of each object entry and of any other expression,
/// the callee and every argument of a call, and the children of each entry
/// that the filter keeps in a properties object, are each rewritten as
/// they would be standing alone.
pub proof fn lemma_recursion(aliases: Set<IdM>, pats: Seq<Seq<char>>, e: ExprM)
    ensures
        e matches ExprM::Array(v) ==> (transform(aliases, pats, e) matches ExprM::Array(w) && (w.len() == v.len()
            && forall|i: int| 0 <= i < v.len() ==> #[trigger] w[i] == transform(aliases, pats, v[i]))),
        e matches ExprM::Other(v) ==> (transform(aliases, pats, e) matches ExprM::Other(w) && (w.len() == v.len()
            && forall|i: int| 0 <= i < v.len() ==> #[trigger] w[i] == transform(aliases, pats, v[i]))),
        e matches ExprM::Object(es) ==> (transform(aliases, pats, e) matches ExprM::Object(fs) && (fs.len() == es.len()
            && forall|i: int, j: int| 0 <= i < es.len() && 0 <= j < es[i].children.len()
                ==> fs[i].children.len() == es[i].children.len()
                && (#[trigger] fs[i].children[j]) == transform(aliases, pats, es[i].children[j]))),
        e matches ExprM::Call(callee, args) ==> (transform(aliases, pats, e) matches ExprM::Call(c2, out) && (
            *c2 == transform(aliases, pats, *callee) && out.len() == args.len() && {
                let intrinsic = is_intrinsic_call(aliases, *callee, args);
                &&& forall|i: int| 0 <= i < args.len() && !(intrinsic && i == 1)
                    ==> #[trigger] out[i] == transform(aliases, pats, args[i])
                &&& intrinsic ==> (args[1] matches ExprM::Object(es) ==> out[1] == ExprM::Object(
                    filter_entries(pats, transform_entries(aliases, pats, es)),
                ))
            })),
{
    match e {
        ExprM::Array(v) => {
            let w = transform_all(aliases, pats, v);
            assert(transform(aliases, pats, e) == ExprM::Array(w));
        },
        ExprM::Other(v) => {
            let w = transform_all(aliases, pats, v);
            assert(transform(aliases, pats, e) == ExprM::Other(w));
        },
        ExprM::Object(es) => {
            let fs = transform_entries(aliases, pats, es);
            assert(transform(aliases, pats, e) == ExprM::Object(fs));
            assert forall|i: int, j: int| 0 <= i < es.len() && 0 <= j < es[i].children.len()
                implies fs[i].children.len() == es[i].children.len()
                && (#[trigger] fs[i].children[j]) == transform(aliases, pats, es[i].children[j]) by {
                assert(fs[i] == transform_entry(aliases, pats, es[i]));
            }
        },
        ExprM::Call(callee, args) => {
            let t = transform_all(aliases, pats, args);
            if is_intrinsic_call(aliases, *callee, args) {
                assert(t[1] == transform(aliases, pats, args[1]));
            }
        },
        _ => {},
    }
}

/// Renaming leaves the form and key of each entry, so the filter commutes
/// with it.
proof fn lemma_filter_rename_commute(f: spec_fn(IdM) -> IdM, pats: Seq<Seq<char>>, s: Seq<PropEntryM>)
    ensures
        rename_entries(f, filter_entries(pats, s)) == filter_entries(pats, rename_entries(f, s)),
    decreases s.len(),
{
    if s.len() > 0 {
        let r = rename_entries(f, s);
        lemma_filter_rename_commute(f, pats, s.drop_last());
        assert(r.drop_last() =~= rename_entries(f, s.drop_last()));
        let g = filter_entries(pats, s.drop_last());
        assert(rename_entries(f, g.push(s.last())) =~= rename_entries(f, g).push(rename_entry(f, s.last())));
    } else {
        assert(rename_entries(f, s) =~= s);
    }
}

/// Renaming commutes with the rewrite of each expression of a list.
pub proof fn lemma_rename_all_commutes(
    a1: Set<IdM>,
    a2: Set<IdM>,
    pats: Seq<Seq<char>>,
    f: spec_fn(IdM) -> IdM,
    s: Seq<ExprM>,
)
    requires
        forall|x: IdM| #[trigger] a2.contains(f(x)) == a1.contains(x),
    ensures
        transform_all(a2, pats, rename_all(f, s)) == rename_all(f, transform_all(a1, pats, s)),
    decreases s, 0nat,
{
    assert forall|i: int| 0 <= i < s.len() implies #[trigger] transform_all(a2, pats, rename_all(f, s))[i]
        == rename_all(f, transform_all(a1, pats, s))[i] by {
        lemma_rename_commutes(a1, a2, pats, f, s[i]);
    }
    assert(transform_all(a2, pats, rename_all(f, s)) =~= rename_all(f, transform_all(a1, pats, s)));
}

/// Renaming commutes with the rewrite of each entry of a list.
pub proof fn lemma_rename_entries_commutes(
    a1: Set<IdM>,
    a2: Set<IdM>,
    pats: Seq<Seq<char>>,
    f: spec_fn(IdM) -> IdM,
    s: Seq<PropEntryM>,
)
    requires
        forall|x: IdM| #[trigger] a2.contains(f(x)) == a1.contains(x),
    ensures
        transform_entries(a2, pats, rename_entries(f, s)) == rename_entries(f, transform_entries(a1, pats, s)),
    decreases s, 0nat,
{
    assert forall|i: int| 0 <= i < s.len() implies #[trigger] transform_entries(a2, pats, rename_entries(f, s))[i]
        == rename_entries(f, transform_entries(a1, pats, s))[i] by {
        lemma_rename_all_commutes(a1, a2, pats, f, s[i].children);
    }
    assert(transform_entries(a2, pats, rename_entries(f, s)) =~= rename_entries(f, transform_entries(a1, pats, s)));
}

/// The rewrite works on binding identity, not on spelling: renaming every
/// binding reference by `f`, with the factory bindings renamed alike
/// (`f(x)` is a factory binding after the renaming exactly when `x` was one
/// before), and then rewriting, gives the rewrite of the original renamed
/// the same way. In particular a factory imported under any alias is
/// treated as under its own name, with the same entries removed at every
/// depth.
pub proof fn lemma_rename_commutes(
    a1: Set<IdM>,
    a2: Set<IdM>,
    pats: Seq<Seq<char>>,
    f: spec_fn(IdM) -> IdM,
    e: ExprM,
)
    requires
        forall|x: IdM| #[trigger] a2.contains(f(x)) == a1.contains(x),
    ensures
        transform(a2, pats, rename(f, e)) == rename(f, transform(a1, pats, e)),
    decreases e, 1nat,
{
    match e {
        ExprM::Object(es) => lemma_rename_entries_commutes(a1, a2, pats, f, es),
        ExprM::Array(v) => lemma_rename_all_commutes(a1, a2, pats, f, v),
        ExprM::Other(v) => lemma_rename_all_commutes(a1, a2, pats, f, v),
        ExprM::Call(callee, args) => {
            lemma_rename_commutes(a1, a2, pats, f, *callee);
            lemma_rename_all_commutes(a1, a2, pats, f, args);
            let ra = rename_all(f, args);
            let t = transform_all(a1, pats, args);
            let t2 = transform_all(a2, pats, ra);
            let rc = rename(f, *callee);
            assert(is_intrinsic_call(a2, rc, ra) == is_intrinsic_call(a1, *callee, args)) by {
                if args.len() > 0 {
                    assert(ra[0] == rename(f, args[0]));
                }
            }
            if is_intrinsic_call(a1, *callee, args) {
                assert(t2[1] == rename(f, t[1]));
                match t[1] {
                    ExprM::Object(es) => lemma_filter_rename_commute(f, pats, es),
                    _ => {},
                }
                assert(filter_object(pats, t2[1]) == rename(f, filter_object(pats, t[1])));
                assert(t2.update(1, filter_object(pats, t2[1])) =~= rename_all(f, t.update(1, filter_object(pats, t[1]))));
            }
        },
        _ => {},
    }
}

} // verus!