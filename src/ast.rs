use vstd::prelude::*;

verus! {

/// A scope-resolved local binding: its spelling and the syntax context that
/// tells apart two locals of the same spelling.
#[derive(Clone, Debug)]
pub struct Id {
    pub sym: String,
    pub ctxt: u32,
}

impl View for Id {
    type V = (Seq<char>, u32);

    open spec fn view(&self) -> (Seq<char>, u32) {
        (self.sym@, self.ctxt)
    }
}

/// The key of an object-literal entry.
#[derive(Clone, Debug)]
pub enum PropKey {
    /// An identifier-shaped key (`onClick`).
    Ident(String),
    /// A string-literal key (`"onClick"`).
    Str(String),
    /// A numeric-literal key.
    Num(u64),
    /// A computed key (`[k]`); its expression is the entry's first child.
    Computed,
    /// No key at all (a spread entry).
    Absent,
}

/// The syntactic form of an object-literal entry.
#[derive(Clone, Copy, Debug, PartialEq, Eq)]
pub enum PropForm {
    /// `{ onClick }`: the key doubles as the value.
    Shorthand,
    /// `{ onClick: handler }`.
    KeyValue,
    /// `{ onClick() { ... } }`.
    Method,
    /// A getter, a setter or an assignment pattern.
    Accessor,
    /// `{ ...rest }`.
    Spread,
}

/// One entry of an object literal: its form, its key and the expressions it
/// holds (a value, a method body, a spread operand, a computed key).
#[derive(Debug)]
pub struct PropEntry {
    pub form: PropForm,
    pub key: PropKey,
    pub children: Vec<Expr>,
}

/// An expression, with the shapes that the pass tells apart; every other
/// expression is `Other`, holding its subexpressions in source order.
#[derive(Debug)]
pub enum Expr {
    Ident(Id),
    Str(String),
    Num(u64),
    Object(Vec<PropEntry>),
    Array(Vec<Expr>),
    Call(Box<Expr>, Vec<Expr>),
    Other(Vec<Expr>),
}

/// How an import specifier names what it imports.
#[derive(Clone, Debug)]
pub enum ModuleExportName {
    Ident(String),
    Str(String),
}

/// `import { imported as local }`, where `imported` is an identifier or a
/// string literal, or `import { local }` when `imported` is absent.
#[derive(Clone, Debug)]
pub struct ImportNamedSpecifier {
    pub local: Id,
    pub imported: Option<ModuleExportName>,
}

/// A top-level item of a module.
#[derive(Debug)]
pub enum ModuleItem {
    Import(Vec<ImportNamedSpecifier>),
    Stmt(Expr),
}

/// A module: its items in source order.
#[derive(Debug)]
pub struct Module {
    pub body: Vec<ModuleItem>,
}

/// The mathematical value of an object-literal entry.
pub struct PropEntryM {
    pub form: PropForm,
    pub key: PropKey,
    pub children: Seq<ExprM>,
}

/// The mathematical value of an expression.
pub enum ExprM {
    Ident((Seq<char>, u32)),
    Str(Seq<char>),
    Num(u64),
    Object(Seq<PropEntryM>),
    Array(Seq<ExprM>),
    Call(Box<ExprM>, Seq<ExprM>),
    Other(Seq<ExprM>),
}

/// The mathematical value of an import specifier: the local binding, and
/// the imported name (identifier or string literal) when one is written.
pub type SpecifierM = ((Seq<char>, u32), Option<ModuleExportName>);

/// The mathematical value of a top-level item.
pub enum ModuleItemM {
    Import(Seq<SpecifierM>),
    Stmt(ExprM),
}

/// The value of each expression of `v`, in order.
pub open spec fn exprs_m(v: &Vec<Expr>) -> Seq<ExprM>
    decreases v, 0nat,
{
    Seq::new(
        v.len() as nat,
        |i: int|
            if 0 <= i < v.len() {
                expr_m(&v[i])
            } else {
                ExprM::Num(0)
            },
    )
}

/// The value of an object-literal entry.
pub open spec fn entry_m(p: &PropEntry) -> PropEntryM
    decreases p, 1nat,
{
    PropEntryM { form: p.form, key: p.key, children: exprs_m(&p.children) }
}

/// The value of each entry of `v`, in order.
pub open spec fn entries_m(v: &Vec<PropEntry>) -> Seq<PropEntryM>
    decreases v, 0nat,
{
    Seq::new(
        v.len() as nat,
        |i: int|
            if 0 <= i < v.len() {
                entry_m(&v[i])
            } else {
                PropEntryM { form: PropForm::Spread, key: PropKey::Absent, children: Seq::empty() }
            },
    )
}

/// The value of an expression.
pub open spec fn expr_m(e: &Expr) -> ExprM
    decreases e, 1nat,
{
    match e {
        Expr::Ident(id) => ExprM::Ident(id@),
        Expr::Str(s) => ExprM::Str(s@),
        Expr::Num(n) => ExprM::Num(*n),
        Expr::Object(v) => ExprM::Object(entries_m(v)),
        Expr::Array(v) => ExprM::Array(exprs_m(v)),
        Expr::Call(callee, args) => ExprM::Call(Box::new(expr_m(callee)), exprs_m(args)),
        Expr::Other(v) => ExprM::Other(exprs_m(v)),
    }
}

impl View for Expr {
    type V = ExprM;

    open spec fn view(&self) -> ExprM {
        expr_m(self)
    }
}

impl View for ImportNamedSpecifier {
    type V = SpecifierM;

    open spec fn view(&self) -> SpecifierM {
        (self.local@, self.imported)
    }
}

impl View for ModuleItem {
    type V = ModuleItemM;

    open spec fn view(&self) -> ModuleItemM {
        match self {
            ModuleItem::Import(v) => ModuleItemM::Import(v@.map_values(|s: ImportNamedSpecifier| s@)),
            ModuleItem::Stmt(e) => ModuleItemM::Stmt(e@),
        }
    }
}

impl View for Module {
    type V = Seq<ModuleItemM>;

    open spec fn view(&self) -> Seq<ModuleItemM> {
        self.body@.map_values(|i: ModuleItem| i@)
    }
}

impl Id {
    /// A copy of the binding.
    pub fn duplicate(&self) -> (r: Id)
        ensures
            r@ == self@,
    {
        Id { sym: self.sym.clone(), ctxt: self.ctxt }
    }
}

impl PropKey {
    /// A copy of the key.
    pub fn duplicate(&self) -> (r: PropKey)
        ensures
            r == *self,
    {
        match self {
            PropKey::Ident(s) => PropKey::Ident(s.clone()),
            PropKey::Str(s) => PropKey::Str(s.clone()),
            PropKey::Num(n) => PropKey::Num(*n),
            PropKey::Computed => PropKey::Computed,
            PropKey::Absent => PropKey::Absent,
        }
    }
}

impl ModuleExportName {
    /// A copy of the name.
    pub fn duplicate(&self) -> (r: ModuleExportName)
        ensures
            r == *self,
    {
        match self {
            ModuleExportName::Ident(s) => ModuleExportName::Ident(s.clone()),
            ModuleExportName::Str(s) => ModuleExportName::Str(s.clone()),
        }
    }
}

impl View for PropEntry {
    type V = PropEntryM;

    open spec fn view(&self) -> PropEntryM {
        entry_m(self)
    }
}

} // verus!
