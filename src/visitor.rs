use vstd::prelude::*;

use crate::ast::{
    entries_m, entry_m, expr_m, exprs_m, Expr, Id, ImportNamedSpecifier, Module,
    ModuleExportName, ModuleItem, PropEntry, PropForm, PropKey,
};
use crate::pattern::{pattern_compiles, Pattern, PatternError};
use crate::rules::{
    aliases_after, entry_kept, filter_entries, filter_object, is_intrinsic_call, key_removed,
    record_import, record_imports, transform, transform_all, transform_entries, transform_entry,
    transform_item, transform_module, IdM,
};

verus! {

/// The texts of a list of strings.
pub open spec fn texts(v: Seq<String>) -> Seq<Seq<char>> {
    v.map_values(|s: String| s@)
}

/// What configures the pass: the factory names and the removal patterns.
pub struct TreeshakeEventsConfig {
    pub jsxs: Vec<String>,
    pub matches: Vec<String>,
}

/// The factory names of the automatic JSX runtime: `jsx`, `jsxs`, `jsxDEV`.
pub fn default_jsxs() -> (r: Vec<String>)
    ensures
        texts(r@) == seq!["jsx"@, "jsxs"@, "jsxDEV"@],
{
    let r = vec![String::from_str("jsx"), String::from_str("jsxs"), String::from_str("jsxDEV")];
    assert(texts(r@) =~= seq!["jsx"@, "jsxs"@, "jsxDEV"@]);
    r
}

/// The one default removal pattern: keys that start with `on` and an upper-case letter.
pub fn default_matches() -> (r: Vec<String>)
    ensures
        texts(r@) == seq!["^on[A-Z]"@],
{
    let r = vec![String::from_str("^on[A-Z]")];
    assert(texts(r@) =~= seq!["^on[A-Z]"@]);
    r
}

impl Default for TreeshakeEventsConfig {
    fn default() -> (r: Self)
        ensures
            texts(r.jsxs@) == seq!["jsx"@, "jsxs"@, "jsxDEV"@],
            texts(r.matches@) == seq!["^on[A-Z]"@],
    {
        TreeshakeEventsConfig { jsxs: default_jsxs(), matches: default_matches() }
    }
}

/// The pass: the factory names, the compiled removal patterns, and the
/// bindings found so far to denote a factory.
pub struct TreeshakeEventsVisitor {
    jsxs: Vec<String>,
    matches: Vec<Pattern>,
    jsxs_ids: Vec<Id>,
}

impl TreeshakeEventsVisitor {
    /// The factory names.
    pub closed spec fn factory_names(&self) -> Seq<Seq<char>> {
        texts(self.jsxs@)
    }

    /// The texts of the removal patterns, in order.
    pub closed spec fn patterns(&self) -> Seq<Seq<char>> {
        self.matches@.map_values(|p: Pattern| p@)
    }

    /// The bindings known to denote a factory.
    pub closed spec fn aliases(&self) -> Set<IdM> {
        self.jsxs_ids@.map_values(|i: Id| i@).to_set()
    }

    /// Builds the pass from a configuration, with no factory binding known
    /// yet. Fails on the first pattern text that does not compile.
    pub fn from_config(config: TreeshakeEventsConfig) -> (r: Result<Self, PatternError>)
        ensures
            r.is_ok() == (forall|i: int| 0 <= i < config.matches.len() ==> pattern_compiles(#[trigger] config.matches[i]@)),
            r matches Ok(v) ==> {
                &&& v.factory_names() == texts(config.jsxs@)
                &&& v.patterns() == texts(config.matches@)
                &&& v.aliases() == Set::<IdM>::empty()
            },
            r matches Err(e) ==> exists|i: int| {
                &&& 0 <= i < config.matches.len()
                &&& !pattern_compiles(config.matches[i]@)
                &&& e.source@ == config.matches[i]@
                &&& forall|j: int| 0 <= j < i ==> pattern_compiles(#[trigger] config.matches[j]@)
            },
    {
        let mut matches: Vec<Pattern> = Vec::new();
        let mut i: usize = 0;
        while i < config.matches.len()
            invariant
                i <= config.matches.len(),
                matches.len() == i,
                forall|j: int| 0 <= j < i ==> pattern_compiles(#[trigger] config.matches[j]@),
                forall|j: int| 0 <= j < i ==> #[trigger] matches[j]@ == config.matches[j]@,
            decreases config.matches.len() - i,
        {
            match Pattern::new(config.matches[i].as_str()) {
                Ok(p) => matches.push(p),
                Err(e) => return Err(e),
            }
            i = i + 1;
        }
        let v = TreeshakeEventsVisitor { jsxs: config.jsxs, matches, jsxs_ids: Vec::new() };
        assert(v.patterns() =~= texts(config.matches@));
        assert(v.aliases() =~= Set::<IdM>::empty());
        Ok(v)
    }

    /// The pass with the default configuration.
    pub fn try_default() -> (r: Result<Self, PatternError>)
        ensures
            r.is_ok() == pattern_compiles("^on[A-Z]"@),
            r matches Ok(v) ==> {
                &&& v.factory_names() == seq!["jsx"@, "jsxs"@, "jsxDEV"@]
                &&& v.patterns() == seq!["^on[A-Z]"@]
                &&& v.aliases() == Set::<IdM>::empty()
            },
    {
        let config = TreeshakeEventsConfig::default();
        proof {
            assert(texts(config.matches@).len() == config.matches@.len());
            assert(config.matches[0]@ == texts(config.matches@)[0]);
        }
        let r = Self::from_config(config);
        proof {
            if pattern_compiles("^on[A-Z]"@) {
                assert forall|i: int| 0 <= i < config.matches.len() implies pattern_compiles(#[trigger] config.matches[i]@) by {
                    assert(i == 0);
                }
            }
        }
        r
    }

    /// Whether `name` is one of the factory names.
    pub fn is_jsx(&self, name: &String) -> (r: bool)
        ensures
            r == self.factory_names().contains(name@),
    {
        let mut i: usize = 0;
        while i < self.jsxs.len()
            invariant
                i <= self.jsxs.len(),
                forall|j: int| 0 <= j < i ==> self.jsxs[j]@ != name@,
            decreases self.jsxs.len() - i,
        {
            if self.jsxs[i] == *name {
                assert(self.factory_names()[i as int] == name@);
                return true;
            }
            i = i + 1;
        }
        proof {
            if self.factory_names().contains(name@) {
                let k = choose|k: int| 0 <= k < self.factory_names().len() && self.factory_names()[k] == name@;
                assert(self.jsxs[k]@ == name@);
            }
        }
        false
    }

    /// Whether the binding is known to denote a factory.
    pub fn is_jsx_id(&self, id: &Id) -> (r: bool)
        ensures
            r == self.aliases().contains(id@),
    {
        let mut i: usize = 0;
        while i < self.jsxs_ids.len()
            invariant
                i <= self.jsxs_ids.len(),
                forall|j: int| 0 <= j < i ==> self.jsxs_ids[j]@ != id@,
            decreases self.jsxs_ids.len() - i,
        {
            if self.jsxs_ids[i].ctxt == id.ctxt && self.jsxs_ids[i].sym == id.sym {
                assert(self.jsxs_ids@.map_values(|i: Id| i@)[i as int] == id@);
                return true;
            }
            i = i + 1;
        }
        proof {
            if self.aliases().contains(id@) {
                let s = self.jsxs_ids@.map_values(|i: Id| i@);
                let k = choose|k: int| 0 <= k < s.len() && s[k] == id@;
                assert(self.jsxs_ids[k]@ == id@);
            }
        }
        false
    }

    /// Whether some removal pattern matches the key text.
    pub fn should_remove(&self, key: &str) -> (r: bool)
        ensures
            r == key_removed(self.patterns(), key@),
    {
        let mut i: usize = 0;
        while i < self.matches.len()
            invariant
                i <= self.matches.len(),
                forall|j: int| 0 <= j < i ==> !crate::pattern::pattern_matches(#[trigger] self.patterns()[j], key@),
            decreases self.matches.len() - i,
        {
            if self.matches[i].is_match(key) {
                assert(self.patterns()[i as int] == self.matches[i as int]@);
                return true;
            }
            assert(self.patterns()[i as int] == self.matches[i as int]@);
            i = i + 1;
        }
        false
    }
}

impl ImportNamedSpecifier {
    /// A copy of the specifier.
    pub fn duplicate(&self) -> (r: ImportNamedSpecifier)
        ensures
            r@ == self@,
    {
        let imported = match &self.imported {
            Some(n) => Some(n.duplicate()),
            None => None,
        };
        ImportNamedSpecifier { local: self.local.duplicate(), imported }
    }
}

impl TreeshakeEventsVisitor {
    /// Whether the filter keeps the entry: only a shorthand, key-value or
    /// method entry with an identifier-shaped key that some pattern matches
    /// goes.
    pub fn keeps_entry(&self, p: &PropEntry) -> (r: bool)
        ensures
            r == entry_kept(self.patterns(), p@),
    {
        match &p.key {
            PropKey::Ident(s) => match p.form {
                PropForm::Shorthand | PropForm::KeyValue | PropForm::Method => !self.should_remove(s.as_str()),
                _ => true,
            },
            _ => true,
        }
    }

    /// Whether a call with this callee and these arguments creates an
    /// intrinsic element through a known factory binding.
    pub fn is_intrinsic_call(&self, callee: &Expr, args: &Vec<Expr>) -> (r: bool)
        ensures
            r == is_intrinsic_call(self.aliases(), callee@, exprs_m(args)),
    {
        match callee {
            Expr::Ident(id) => {
                if self.is_jsx_id(id) && args.len() >= 2 {
                    assert(exprs_m(args)[0] == expr_m(&args[0]));
                    match &args[0] {
                        Expr::Str(_) => true,
                        _ => false,
                    }
                } else {
                    false
                }
            },
            _ => false,
        }
    }

    /// Rewrites each expression of `v`.
    pub fn fold_exprs(&self, v: &Vec<Expr>) -> (r: Vec<Expr>)
        ensures
            exprs_m(&r) == transform_all(self.aliases(), self.patterns(), exprs_m(v)),
        decreases v, 0nat,
    {
        let mut out: Vec<Expr> = Vec::new();
        let mut i: usize = 0;
        while i < v.len()
            invariant
                i <= v.len(),
                out.len() == i,
                forall|k: int| 0 <= k < i ==> expr_m(&#[trigger] out[k]) == transform(self.aliases(), self.patterns(), expr_m(&v[k])),
            decreases v.len() - i,
        {
            out.push(self.fold_expr(&v[i]));
            i = i + 1;
        }
        assert(exprs_m(&out) =~= transform_all(self.aliases(), self.patterns(), exprs_m(v)));
        out
    }

    /// Rewrites the children of an entry.
    pub fn fold_entry(&self, p: &PropEntry) -> (r: PropEntry)
        ensures
            r@ == transform_entry(self.aliases(), self.patterns(), p@),
        decreases p, 1nat,
    {
        PropEntry { form: p.form, key: p.key.duplicate(), children: self.fold_exprs(&p.children) }
    }

    /// Rewrites each entry of `v`, keeping those that the filter keeps when
    /// `filter` is set.
    fn fold_entries(&self, v: &Vec<PropEntry>, filter: bool) -> (r: Vec<PropEntry>)
        ensures
            filter ==> entries_m(&r) == filter_entries(self.patterns(), transform_entries(self.aliases(), self.patterns(), entries_m(v))),
            !filter ==> entries_m(&r) == transform_entries(self.aliases(), self.patterns(), entries_m(v)),
        decreases v, 0nat,
    {
        let ghost t = transform_entries(self.aliases(), self.patterns(), entries_m(v));
        let mut out: Vec<PropEntry> = Vec::new();
        let mut i: usize = 0;
        while i < v.len()
            invariant
                i <= v.len(),
                t == transform_entries(self.aliases(), self.patterns(), entries_m(v)),
                filter ==> entries_m(&out) == filter_entries(self.patterns(), t.take(i as int)),
                !filter ==> entries_m(&out) == t.take(i as int),
            decreases v.len() - i,
        {
            let ghost before = entries_m(&out);
            assert(t.take(i + 1).drop_last() =~= t.take(i as int));
            assert(t[i as int] == transform_entry(self.aliases(), self.patterns(), entry_m(&v[i as int])));
            if !filter || self.keeps_entry(&v[i]) {
                let e = self.fold_entry(&v[i]);
                out.push(e);
                assert(entries_m(&out) =~= before.push(entry_m(&e)));
            }
            i = i + 1;
        }
        assert(t.take(v.len() as int) =~= t);
        out
    }

    /// Rewrites an expression; every call in it, at any depth, is matched
    /// and filtered.
    pub fn fold_expr(&self, e: &Expr) -> (r: Expr)
        ensures
            r@ == transform(self.aliases(), self.patterns(), e@),
        decreases e, 1nat,
    {
        match e {
            Expr::Ident(id) => Expr::Ident(id.duplicate()),
            Expr::Str(s) => Expr::Str(s.clone()),
            Expr::Num(n) => Expr::Num(*n),
            Expr::Object(es) => Expr::Object(self.fold_entries(es, false)),
            Expr::Array(v) => Expr::Array(self.fold_exprs(v)),
            Expr::Other(v) => Expr::Other(self.fold_exprs(v)),
            Expr::Call(callee, args) => {
                let intrinsic = self.is_intrinsic_call(callee, args);
                let mut out = self.fold_exprs(args);
                if intrinsic {
                    let ghost t = exprs_m(&out);
                    assert(t.len() == out.len() && exprs_m(args).len() == args.len());
                    let filtered = self.fold_filtered(&args[1]);
                    out.set(1, filtered);
                    assert(exprs_m(&out) =~= t.update(1, filter_object(self.patterns(), t[1])));
                }
                Expr::Call(Box::new(self.fold_expr(callee)), out)
            },
        }
    }

    /// Rewrites an expression and, where it is an object literal, takes out
    /// the entries that the filter removes.
    fn fold_filtered(&self, e: &Expr) -> (r: Expr)
        ensures
            r@ == filter_object(self.patterns(), transform(self.aliases(), self.patterns(), e@)),
        decreases e, 2nat,
    {
        match e {
            Expr::Object(es) => Expr::Object(self.fold_entries(es, true)),
            _ => self.fold_expr(e),
        }
    }
}

impl TreeshakeEventsVisitor {
    /// Records an import specifier: where the imported name, identifier or
    /// string literal (or, with none written, the local name) is a factory name, the local binding becomes
    /// a factory binding. Bindings are never forgotten.
    pub fn visit_mut_import_named_specifier(&mut self, n: &ImportNamedSpecifier)
        ensures
            final(self).aliases() == record_import(old(self).factory_names(), old(self).aliases(), n@),
            final(self).factory_names() == old(self).factory_names(),
            final(self).patterns() == old(self).patterns(),
    {
        let name = match &n.imported {
            Some(ModuleExportName::Ident(s)) => s,
            Some(ModuleExportName::Str(s)) => s,
            None => &n.local.sym,
        };
        if self.is_jsx(name) {
            let ghost before = self.jsxs_ids@.map_values(|i: Id| i@);
            self.jsxs_ids.push(n.local.duplicate());
            let ghost after = self.jsxs_ids@.map_values(|i: Id| i@);
            assert(after =~= before.push(n.local@));
            assert(after.to_set() =~= before.to_set().insert(n.local@)) by {
                assert forall|x: IdM| after.contains(x) implies before.contains(x) || x == n.local@ by {
                    let k = choose|k: int| 0 <= k < after.len() && after[k] == x;
                    if k < before.len() {
                        assert(before[k] == x);
                    }
                }
                assert(after[before.len() as int] == n.local@);
                assert forall|x: IdM| before.contains(x) implies after.contains(x) by {
                    let k = choose|k: int| 0 <= k < before.len() && before[k] == x;
                    assert(after[k] == x);
                }
            }
        }
    }

    /// Records each specifier of one import declaration, in order.
    pub fn visit_mut_import_decl(&mut self, specifiers: &Vec<ImportNamedSpecifier>)
        ensures
            final(self).aliases() == record_imports(
                old(self).factory_names(),
                old(self).aliases(),
                specifiers@.map_values(|s: ImportNamedSpecifier| s@),
            ),
            final(self).factory_names() == old(self).factory_names(),
            final(self).patterns() == old(self).patterns(),
    {
        let ghost s = specifiers@.map_values(|s: ImportNamedSpecifier| s@);
        let mut i: usize = 0;
        while i < specifiers.len()
            invariant
                i <= specifiers.len(),
                s == specifiers@.map_values(|s: ImportNamedSpecifier| s@),
                self.aliases() == record_imports(old(self).factory_names(), old(self).aliases(), s.take(i as int)),
                self.factory_names() == old(self).factory_names(),
                self.patterns() == old(self).patterns(),
            decreases specifiers.len() - i,
        {
            assert(s.take(i + 1).drop_last() =~= s.take(i as int));
            self.visit_mut_import_named_specifier(&specifiers[i]);
            i = i + 1;
        }
        assert(s.take(specifiers.len() as int) =~= s);
    }

    /// Rewrites a module in one walk in source order: each import extends
    /// the factory bindings for the items after it, and each statement is
    /// rewritten with the bindings known when it is reached.
    pub fn visit_mut_module(&mut self, m: &mut Module)
        ensures
            final(m)@ == transform_module(old(self).factory_names(), old(self).patterns(), old(self).aliases(), old(m)@),
            final(self).aliases() == aliases_after(old(self).factory_names(), old(self).aliases(), old(m)@, old(m)@.len() as int),
            final(self).factory_names() == old(self).factory_names(),
            final(self).patterns() == old(self).patterns(),
    {
        let ghost items = m@;
        let ghost names = self.factory_names();
        let ghost a0 = self.aliases();
        let mut out: Vec<ModuleItem> = Vec::new();
        let mut i: usize = 0;
        while i < m.body.len()
            invariant
                i <= m.body.len(),
                items == m@,
                items.len() == m.body.len(),
                names == old(self).factory_names(),
                a0 == old(self).aliases(),
                self.factory_names() == names,
                self.patterns() == old(self).patterns(),
                self.aliases() == aliases_after(names, a0, items, i as int),
                out.len() == i,
                forall|k: int| 0 <= k < i ==> (#[trigger] out[k])@ == transform_item(aliases_after(names, a0, items, k), self.patterns(), items[k]),
            decreases m.body.len() - i,
        {
            assert(items[i as int] == m.body[i as int]@);
            match &m.body[i] {
                ModuleItem::Import(specifiers) => {
                    let mut copy: Vec<ImportNamedSpecifier> = Vec::new();
                    let mut j: usize = 0;
                    while j < specifiers.len()
                        invariant
                            j <= specifiers.len(),
                            copy.len() == j,
                            forall|k: int| 0 <= k < j ==> (#[trigger] copy[k])@ == specifiers[k]@,
                        decreases specifiers.len() - j,
                    {
                        copy.push(specifiers[j].duplicate());
                        j = j + 1;
                    }
                    self.visit_mut_import_decl(specifiers);
                    let item = ModuleItem::Import(copy);
                    assert(item@ == items[i as int]) by {
                        assert(copy@.map_values(|s: ImportNamedSpecifier| s@) =~= specifiers@.map_values(|s: ImportNamedSpecifier| s@));
                    }
                    out.push(item);
                },
                ModuleItem::Stmt(e) => {
                    out.push(ModuleItem::Stmt(self.fold_expr(e)));
                },
            }
            i = i + 1;
        }
        m.body = out;
        assert(m@ =~= transform_module(names, self.patterns(), a0, items));
    }
}

/// Runs the pass over a module with a fresh set of factory bindings. Fails,
/// before any rewrite, on the first removal pattern that does not compile.
pub fn process_transform(program: Module, config: TreeshakeEventsConfig) -> (r: Result<Module, PatternError>)
    ensures
        r.is_ok() == (forall|i: int| 0 <= i < config.matches.len() ==> pattern_compiles(#[trigger] config.matches[i]@)),
        r matches Ok(m) ==> m@ == transform_module(texts(config.jsxs@), texts(config.matches@), Set::<IdM>::empty(), program@),
{
    match TreeshakeEventsVisitor::from_config(config) {
        Ok(v) => {
            let mut v = v;
            let mut program = program;
            v.visit_mut_module(&mut program);
            Ok(program)
        },
        Err(e) => Err(e),
    }
}

} // verus!