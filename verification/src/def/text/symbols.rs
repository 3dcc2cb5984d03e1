//! The symbol table: the values of the enumerators and `#define`s a header
//! declares, as text defs refer to them.

use vstd::prelude::*;
use vstd::string::StringSliceAdditionalSpecFns;

use crate::bytes::str_eq;

use super::header::{
    exprs_m, expr_m, item_m, items_m, lemma_exprs_m_index, str_m, variants_m, EnumDecl, EnumExpr,
    ExprM, Header,
    HeaderItem, ItemM, VariantM,
};

verus! {

/// The symbols evaluated so far and their values.
pub struct SymbolTable {
    entries: Vec<(String, i64)>,
}

/// Errors evaluating a header into the table.
#[derive(Debug)]
pub enum SymbolEvalError {
    UnknownSymbol(String),
    DuplicateSymbol(String),
    InvalidShift(i64),
}

// ── the model ─────────────────────────────────────────────────────────────────

/// A symbol table in the model: names as UTF-8 bytes.
pub type TableM = Map<Seq<u8>, i64>;

/// An evaluation outcome in the model. `Overflow` marks the inputs on which
/// evaluation would not complete (an automatic value past `i64::MAX`, or a
/// shift with no terms).
pub enum EvalErrM {
    Unknown(Seq<u8>),
    Duplicate(Seq<u8>),
    InvalidShift(i64),
    Overflow,
}

pub open spec fn eval_err_m(e: SymbolEvalError) -> EvalErrM {
    match e {
        SymbolEvalError::UnknownSymbol(s) => EvalErrM::Unknown(str_m(s)),
        SymbolEvalError::DuplicateSymbol(s) => EvalErrM::Duplicate(str_m(s)),
        SymbolEvalError::InvalidShift(n) => EvalErrM::InvalidShift(n),
    }
}

/// The table the entries `s` stand for.
pub open spec fn entries_map(s: Seq<(String, i64)>) -> TableM
    decreases s.len(),
{
    if s.len() == 0 {
        Map::empty()
    } else {
        entries_map(s.drop_last()).insert(str_m(s.last().0), s.last().1)
    }
}

/// No two entries share a name.
pub open spec fn names_unique(s: Seq<(String, i64)>) -> bool {
    forall|i: int, j: int|
        0 <= i < s.len() && 0 <= j < s.len() && i != j ==> str_m(#[trigger] s[i].0) != str_m(
            #[trigger] s[j].0,
        )
}

/// The value of an enum expression against the table `m`.
pub open spec fn eval_expr_m(m: TableM, e: ExprM) -> Result<i64, EvalErrM>
    decreases e, 0int,
{
    match e {
        ExprM::Int(v) => Ok(v as i64),
        ExprM::Ident(n) => if m.contains_key(n) {
            Ok(m[n])
        } else {
            Err(EvalErrM::Unknown(n))
        },
        ExprM::Shift(ts) => if ts.len() == 0 {
            Err(EvalErrM::Overflow)
        } else {
            match eval_expr_m(m, ts[0]) {
                Ok(first) => shift_fold(m, ts, 1, first),
                Err(x) => Err(x),
            }
        },
        ExprM::BitOr(ts) => or_fold(m, ts, 0, 0),
    }
}

/// Shifts `acc` left by each of `ts[i..]` in turn; an amount outside `0..64`
/// is an error.
pub open spec fn shift_fold(m: TableM, ts: Seq<ExprM>, i: int, acc: i64) -> Result<i64, EvalErrM>
    decreases ts, ts.len() - i,
{
    if !(0 <= i < ts.len()) {
        Ok(acc)
    } else {
        match eval_expr_m(m, ts[i]) {
            Ok(n) => if 0 <= n < 64 {
                shift_fold(m, ts, i + 1, acc << (n as u32))
            } else {
                Err(EvalErrM::InvalidShift(n))
            },
            Err(x) => Err(x),
        }
    }
}

/// Ors `acc` with each of `ts[i..]` in turn.
pub open spec fn or_fold(m: TableM, ts: Seq<ExprM>, i: int, acc: i64) -> Result<i64, EvalErrM>
    decreases ts, ts.len() - i,
{
    if !(0 <= i < ts.len()) {
        Ok(acc)
    } else {
        match eval_expr_m(m, ts[i]) {
            Ok(v) => or_fold(m, ts, i + 1, acc | v),
            Err(x) => Err(x),
        }
    }
}

/// `m` with `name` bound to `value`, or the duplicate.
pub open spec fn insert_m(m: TableM, name: Seq<u8>, value: i64) -> (TableM, Option<EvalErrM>) {
    if m.contains_key(name) {
        (m, Some(EvalErrM::Duplicate(name)))
    } else {
        (m.insert(name, value), None)
    }
}

/// The variants `vs[i..]` of an enum, the one before valued `last`: each
/// takes its expression's value, or the previous value plus one (the first:
/// zero).
pub open spec fn eval_variants_m(m: TableM, vs: Seq<VariantM>, i: int, last: Option<i64>) -> (
    TableM,
    Option<EvalErrM>,
)
    decreases vs.len() - i,
{
    if !(0 <= i < vs.len()) {
        (m, None)
    } else {
        let v = match vs[i].value {
            Some(e) => eval_expr_m(m, e),
            None => match last {
                None => Ok(0i64),
                Some(x) => if x == i64::MAX {
                    Err(EvalErrM::Overflow)
                } else {
                    Ok((x + 1) as i64)
                },
            },
        };
        match v {
            Ok(value) => {
                let (m2, e) = insert_m(m, vs[i].name, value);
                if e is Some {
                    (m2, e)
                } else {
                    eval_variants_m(m2, vs, i + 1, Some(value))
                }
            },
            Err(x) => (m, Some(x)),
        }
    }
}

/// The bytes of `_WINDOWS`, the one condition taken as defined.
pub open spec fn windows_m() -> Seq<u8> {
    seq![95u8, 87u8, 73u8, 78u8, 68u8, 79u8, 87u8, 83u8]
}

/// Evaluates one item into `m`.
pub open spec fn eval_item_m(m: TableM, it: ItemM) -> (TableM, Option<EvalErrM>)
    decreases it, 0int,
{
    match it {
        ItemM::Enum(_, vs) => eval_variants_m(m, vs, 0, None),
        ItemM::Define(n, v) => insert_m(m, n, v as i64),
        ItemM::Namespace(_, items) => eval_items_m(m, items, 0),
        ItemM::IfDef(c, ib, eb, _) => if c == windows_m() {
            eval_items_m(m, ib, 0)
        } else {
            match eb {
                Some(e) => eval_items_m(m, e, 0),
                None => (m, None),
            }
        },
    }
}

/// Evaluates `items[i..]` into `m` in order, stopping at the first error.
pub open spec fn eval_items_m(m: TableM, items: Seq<ItemM>, i: int) -> (TableM, Option<EvalErrM>)
    decreases items, items.len() - i,
{
    if !(0 <= i < items.len()) {
        (m, None)
    } else {
        let (m2, e) = eval_item_m(m, items[i]);
        if e is Some {
            (m2, e)
        } else {
            eval_items_m(m2, items, i + 1)
        }
    }
}

// ── the table ─────────────────────────────────────────────────────────────────

impl View for SymbolTable {
    type V = TableM;

    closed spec fn view(&self) -> TableM {
        entries_map(self.entries@)
    }
}

proof fn lemma_entries_map(s: Seq<(String, i64)>)
    requires
        names_unique(s),
    ensures
        entries_map(s).dom().finite(),
        entries_map(s).dom().len() == s.len(),
        forall|i: int| 0 <= i < s.len() ==> #[trigger] entries_map(s).contains_key(str_m(s[i].0))
            && entries_map(s)[str_m(s[i].0)] == s[i].1,
        forall|k: Seq<u8>| #[trigger] entries_map(s).contains_key(k) ==> exists|i: int|
            0 <= i < s.len() && str_m(s[i].0) == k,
    decreases s.len(),
{
    if s.len() > 0 {
        let d = s.drop_last();
        assert(names_unique(d)) by {
            assert forall|i: int, j: int|
                0 <= i < d.len() && 0 <= j < d.len() && i != j implies str_m(#[trigger] d[i].0)
                != str_m(#[trigger] d[j].0) by {
                assert(d[i] == s[i] && d[j] == s[j]);
            }
        }
        lemma_entries_map(d);
        let k = str_m(s.last().0);
        assert(!entries_map(d).contains_key(k)) by {
            if entries_map(d).contains_key(k) {
                let i = choose|i: int| 0 <= i < d.len() && str_m(d[i].0) == k;
                assert(d[i] == s[i]);
                assert(s.last() == s[s.len() - 1]);
            }
        }
        assert forall|i: int| 0 <= i < s.len() implies #[trigger] entries_map(s).contains_key(
            str_m(s[i].0),
        ) && entries_map(s)[str_m(s[i].0)] == s[i].1 by {
            if i < s.len() - 1 {
                assert(d[i] == s[i]);
                assert(str_m(s[i].0) != k);
            }
        }
        assert forall|kk: Seq<u8>| #[trigger] entries_map(s).contains_key(kk) implies exists|i: int|
            0 <= i < s.len() && str_m(s[i].0) == kk by {
            if kk != k {
                let i = choose|i: int| 0 <= i < d.len() && str_m(d[i].0) == kk;
                assert(d[i] == s[i]);
            } else {
                assert(str_m(s[s.len() - 1].0) == kk);
            }
        }
    }
}

impl SymbolTable {
    #[verifier::type_invariant]
    spec fn inv(&self) -> bool {
        names_unique(self.entries@)
    }

    pub fn new() -> (r: Self)
        ensures
            r@ == Map::<Seq<u8>, i64>::empty(),
            r@.dom().finite(),
    {
        SymbolTable { entries: Vec::new() }
    }

    /// The value bound to `name`, if any.
    pub fn lookup(&self, name: &str) -> (r: Option<i64>)
        ensures
            self@.dom().finite(),
            r == (if self@.contains_key(name.spec_bytes()) {
                Some(self@[name.spec_bytes()])
            } else {
                None
            }),
    {
        proof {
            use_type_invariant(self);
            lemma_entries_map(self.entries@);
        }
        let mut i: usize = 0;
        while i < self.entries.len()
            invariant
                i <= self.entries@.len(),
                names_unique(self.entries@),
                forall|k: int| 0 <= k < i ==> str_m(#[trigger] self.entries@[k].0) != name.spec_bytes(),
            decreases self.entries.len() - i,
        {
            if str_eq(self.entries[i].0.as_str(), name) {
                proof {
                    lemma_entries_map(self.entries@);
                }
                return Some(self.entries[i].1);
            }
            i += 1;
        }
        proof {
            lemma_entries_map(self.entries@);
        }
        None
    }

    /// How many symbols are bound.
    pub fn len(&self) -> (r: usize)
        ensures
            self@.dom().finite(),
            r == self@.len(),
    {
        proof {
            use_type_invariant(self);
            lemma_entries_map(self.entries@);
        }
        self.entries.len()
    }

    pub fn is_empty(&self) -> (r: bool)
        ensures
            self@.dom().finite(),
            r == (self@.len() == 0),
    {
        proof {
            use_type_invariant(self);
            lemma_entries_map(self.entries@);
        }
        self.entries.len() == 0
    }

    /// Every binding, in the order the symbols were bound.
    pub fn iter(&self) -> (r: Vec<(&str, i64)>)
        ensures
            self@.dom().finite(),
            r@.len() == self@.len(),
            forall|i: int, j: int|
                0 <= i < r@.len() && 0 <= j < r@.len() && i != j ==> (#[trigger] r@[i]).0.spec_bytes()
                    != (#[trigger] r@[j]).0.spec_bytes(),
            forall|i: int| 0 <= i < r@.len() ==> #[trigger] self@.contains_key(r@[i].0.spec_bytes())
                && self@[r@[i].0.spec_bytes()] == r@[i].1,
            forall|k: Seq<u8>| #[trigger] self@.contains_key(k) ==> exists|i: int|
                0 <= i < r@.len() && r@[i].0.spec_bytes() == k,
    {
        proof {
            use_type_invariant(self);
            lemma_entries_map(self.entries@);
        }
        let mut out: Vec<(&str, i64)> = Vec::new();
        let mut i: usize = 0;
        while i < self.entries.len()
            invariant
                i <= self.entries@.len(),
                out@.len() == i,
                forall|k: int| 0 <= k < i ==> (#[trigger] out@[k]).0.spec_bytes() == str_m(self.entries@[k].0)
                    && out@[k].1 == self.entries@[k].1,
            decreases self.entries.len() - i,
        {
            out.push((self.entries[i].0.as_str(), self.entries[i].1));
            i += 1;
        }
        proof {
            assert forall|k: Seq<u8>| #[trigger] self@.contains_key(k) implies exists|i: int|
                0 <= i < out@.len() && out@[i].0.spec_bytes() == k by {
                let i = choose|i: int| 0 <= i < self.entries@.len() && str_m(self.entries@[i].0) == k;
                assert(out@[i].0.spec_bytes() == k);
            }
        }
        out
    }

    /// Binds `name` to `value`; a name already bound is an error and leaves
    /// the table unchanged.
    pub fn insert(&mut self, name: &str, value: i64) -> (r: Result<(), SymbolEvalError>)
        ensures
            old(self)@.dom().finite(),
            final(self)@.dom().finite(),
            ({
                let (m, e) = insert_m(old(self)@, name.spec_bytes(), value);
                &&& final(self)@ == m
                &&& match e {
                    None => r is Ok,
                    Some(x) => r matches Err(y) && eval_err_m(y) == x,
                }
            }),
    {
        proof {
            use_type_invariant(&*self);
            lemma_entries_map(self.entries@);
        }
        match self.lookup(name) {
            Some(_) => {
                let s = name.to_owned();
                return Err(SymbolEvalError::DuplicateSymbol(s));
            },
            None => {},
        }
        let ghost before = self.entries@;
        let s = name.to_owned();
        let mut entries = Vec::new();
        std::mem::swap(&mut entries, &mut self.entries);
        entries.push((s, value));
        proof {
            assert(entries@.drop_last() =~= before);
            assert(names_unique(entries@)) by {
                assert forall|i: int, j: int|
                    0 <= i < entries@.len() && 0 <= j < entries@.len() && i != j implies str_m(
                    #[trigger] entries@[i].0,
                ) != str_m(#[trigger] entries@[j].0) by {
                    if i < before.len() && j < before.len() {
                        assert(entries@[i] == before[i] && entries@[j] == before[j]);
                    } else if i < before.len() {
                        assert(entries@[i] == before[i]);
                    } else if j < before.len() {
                        assert(entries@[j] == before[j]);
                    }
                }
            }
        }
        self.entries = entries;
        Ok(())
    }
}

// ── evaluation ────────────────────────────────────────────────────────────────

/// Whether `s` is `_WINDOWS`.
fn is_windows(s: &str) -> (r: bool)
    ensures
        r == (s.spec_bytes() == windows_m()),
{
    let b = s.as_bytes();
    let r = b.len() == 8 && b[0] == 95 && b[1] == 87 && b[2] == 73 && b[3] == 78 && b[4] == 68
        && b[5] == 79 && b[6] == 87 && b[7] == 83;
    proof {
        if r {
            assert(b@ =~= windows_m());
        }
    }
    r
}

proof fn lemma_items_m_index(s: Seq<HeaderItem>)
    ensures
        items_m(s).len() == s.len(),
        forall|k: int| 0 <= k < s.len() ==> #[trigger] items_m(s)[k] == item_m(s[k]),
    decreases s.len(),
{
    if s.len() > 0 {
        lemma_items_m_index(s.drop_last());
        assert forall|k: int| 0 <= k < s.len() implies #[trigger] items_m(s)[k] == item_m(s[k]) by {
            if k < s.len() - 1 {
                assert(s.drop_last()[k] == s[k]);
            }
        }
    }
}

/// Whether evaluating `it` into `m` completes.
pub open spec fn completes(o: (TableM, Option<EvalErrM>)) -> bool {
    o.1 != Some(EvalErrM::Overflow)
}

impl SymbolTable {
    fn evaluate_enum_expr(&self, expr: &EnumExpr) -> (r: Result<i64, SymbolEvalError>)
        requires
            eval_expr_m(self@, expr_m(*expr)) != Err::<i64, EvalErrM>(EvalErrM::Overflow),
        ensures
            match eval_expr_m(self@, expr_m(*expr)) {
                Ok(v) => r == Ok::<i64, SymbolEvalError>(v),
                Err(x) => r matches Err(y) && eval_err_m(y) == x,
            },
        decreases *expr,
    {
        match expr {
            EnumExpr::Int(n) => Ok(*n),
            EnumExpr::Ident(name) => match self.lookup(name.as_str()) {
                Some(v) => Ok(v),
                None => Err(SymbolEvalError::UnknownSymbol(name.clone())),
            },
            EnumExpr::Shift(terms) => {
                let ghost ts = exprs_m(terms@);
                proof {
                    lemma_exprs_m_index(terms@);
                }
                let mut acc = self.evaluate_enum_expr(&terms[0])?;
                let mut i: usize = 1;
                while i < terms.len()
                    invariant
                        1 <= i <= terms@.len(),
                        ts == exprs_m(terms@),
                        ts.len() == terms@.len(),
                        forall|k: int| 0 <= k < terms@.len() ==> #[trigger] ts[k] == expr_m(terms@[k]),
                        eval_expr_m(self@, expr_m(*expr)) == shift_fold(self@, ts, i as int, acc),
                        eval_expr_m(self@, expr_m(*expr)) != Err::<i64, EvalErrM>(EvalErrM::Overflow),
                        *expr == EnumExpr::Shift(*terms),
                    decreases terms@.len() - i,
                {
                    let n = self.evaluate_enum_expr(&terms[i])?;
                    if !(0 <= n && n < 64) {
                        return Err(SymbolEvalError::InvalidShift(n));
                    }
                    acc = acc << (n as u32);
                    i += 1;
                }
                Ok(acc)
            },
            EnumExpr::BitOr(terms) => {
                let ghost ts = exprs_m(terms@);
                proof {
                    lemma_exprs_m_index(terms@);
                }
                let mut acc: i64 = 0;
                let mut i: usize = 0;
                while i < terms.len()
                    invariant
                        i <= terms@.len(),
                        ts == exprs_m(terms@),
                        ts.len() == terms@.len(),
                        forall|k: int| 0 <= k < terms@.len() ==> #[trigger] ts[k] == expr_m(terms@[k]),
                        eval_expr_m(self@, expr_m(*expr)) == or_fold(self@, ts, i as int, acc),
                        eval_expr_m(self@, expr_m(*expr)) != Err::<i64, EvalErrM>(EvalErrM::Overflow),
                        *expr == EnumExpr::BitOr(*terms),
                    decreases terms@.len() - i,
                {
                    let v = self.evaluate_enum_expr(&terms[i])?;
                    acc = acc | v;
                    i += 1;
                }
                Ok(acc)
            },
        }
    }
}

impl SymbolTable {
    fn evaluate_enum(&mut self, decl: &EnumDecl) -> (r: Result<(), SymbolEvalError>)
        requires
            completes(eval_variants_m(old(self)@, variants_m(decl.variants@), 0, None)),
        ensures
            ({
                let (m, e) = eval_variants_m(old(self)@, variants_m(decl.variants@), 0, None);
                &&& final(self)@ == m
                &&& match e {
                    None => r is Ok,
                    Some(x) => r matches Err(y) && eval_err_m(y) == x,
                }
            }),
    {
        let ghost vs = variants_m(decl.variants@);
        let ghost goal = eval_variants_m(self@, vs, 0, None);
        let mut last: Option<i64> = None;
        let mut k: usize = 0;
        let mut res: Result<(), SymbolEvalError> = Ok(());
        while k < decl.variants.len()
            invariant_except_break
                goal == eval_variants_m(self@, vs, k as int, last),
                res is Ok,
            invariant
                k <= decl.variants@.len(),
                vs == variants_m(decl.variants@),
                vs.len() == decl.variants@.len(),
                completes(goal),
            ensures
                goal.0 == self@,
                match goal.1 {
                    None => res is Ok,
                    Some(x) => res matches Err(y) && eval_err_m(y) == x,
                },
            decreases decl.variants@.len() - k,
        {
            let variant = &decl.variants[k];
            assert(vs[k as int] == (VariantM { name: str_m(variant.name), value: super::header::opt_expr_m(variant.value) }));
            let value = match &variant.value {
                Some(expr) => match self.evaluate_enum_expr(expr) {
                    Ok(v) => v,
                    Err(e) => {
                        res = Err(e);
                        break;
                    },
                },
                None => match last {
                    None => 0,
                    Some(v) => v + 1,
                },
            };
            match self.insert(variant.name.as_str(), value) {
                Ok(()) => {},
                Err(e) => {
                    res = Err(e);
                    break;
                },
            }
            last = Some(value);
            k += 1;
        }
        res
    }

    fn evaluate_header_item(&mut self, item: &HeaderItem) -> (r: Result<(), SymbolEvalError>)
        requires
            completes(eval_item_m(old(self)@, item_m(*item))),
        ensures
            ({
                let (m, e) = eval_item_m(old(self)@, item_m(*item));
                &&& final(self)@ == m
                &&& match e {
                    None => r is Ok,
                    Some(x) => r matches Err(y) && eval_err_m(y) == x,
                }
            }),
        decreases *item,
    {
        match item {
            HeaderItem::Enum(decl) => self.evaluate_enum(decl),
            HeaderItem::Define(d) => self.insert(d.name.as_str(), d.value),
            HeaderItem::Namespace(ns) => self.evaluate_items(&ns.items, Ghost(*item)),
            HeaderItem::IfDef(ifdef) => {
                if is_windows(ifdef.condition.as_str()) {
                    self.evaluate_items(&ifdef.if_branch, Ghost(*item))
                } else {
                    match &ifdef.else_branch {
                        Some(e) => self.evaluate_items(e, Ghost(*item)),
                        None => Ok(()),
                    }
                }
            },
        }
    }

    fn evaluate_items(&mut self, items: &Vec<HeaderItem>, Ghost(parent): Ghost<HeaderItem>) -> (r: Result<(), SymbolEvalError>)
        requires
            completes(eval_items_m(old(self)@, items_m(items@), 0)),
            decreases_to!(parent => items@),
        ensures
            ({
                let (m, e) = eval_items_m(old(self)@, items_m(items@), 0);
                &&& final(self)@ == m
                &&& match e {
                    None => r is Ok,
                    Some(x) => r matches Err(y) && eval_err_m(y) == x,
                }
            }),
        decreases parent, 1int,
    {
        let ghost ms = items_m(items@);
        let ghost goal = eval_items_m(self@, ms, 0);
        proof {
            lemma_items_m_index(items@);
        }
        let mut k: usize = 0;
        let mut res: Result<(), SymbolEvalError> = Ok(());
        while k < items.len()
            invariant_except_break
                goal == eval_items_m(self@, ms, k as int),
                res is Ok,
            invariant
                k <= items@.len(),
                ms == items_m(items@),
                ms.len() == items@.len(),
                forall|j: int| 0 <= j < items@.len() ==> #[trigger] ms[j] == item_m(items@[j]),
                completes(goal),
                decreases_to!(parent => items@),
            ensures
                goal.0 == self@,
                match goal.1 {
                    None => res is Ok,
                    Some(x) => res matches Err(y) && eval_err_m(y) == x,
                },
            decreases items@.len() - k,
        {
            assert(decreases_to!(parent => items@[k as int]));
            let ghost before = self@;
            let one = self.evaluate_header_item(&items[k]);
            proof {
                let (m2, e2) = eval_item_m(before, ms[k as int]);
                assert(eval_items_m(before, ms, k as int) == (if e2 is Some { (m2, e2) } else { eval_items_m(m2, ms, k + 1) }));
            }
            match one {
                Ok(()) => {},
                Err(e) => {
                    res = Err(e);
                    break;
                },
            }
            k += 1;
        }
        res
    }

    /// Evaluates the header's items into the table in order: enum variants
    /// take their expression's value or the previous value plus one (the
    /// first: zero), `#define`s their value; namespaces are entered, and of an
    /// `#ifdef` section the branch for `_WINDOWS` defined and nothing else.
    /// The first error stops the evaluation; what was bound before it stays.
    pub fn evaluate(&mut self, header: &Header) -> (r: Result<(), SymbolEvalError>)
        requires
            completes(eval_items_m(old(self)@, items_m(header.items@), 0)),
        ensures
            ({
                let (m, e) = eval_items_m(old(self)@, items_m(header.items@), 0);
                &&& final(self)@ == m
                &&& match e {
                    None => r is Ok,
                    Some(x) => r matches Err(y) && eval_err_m(y) == x,
                }
            }),
    {
        let ghost ms = items_m(header.items@);
        let ghost goal = eval_items_m(self@, ms, 0);
        proof {
            lemma_items_m_index(header.items@);
        }
        let mut k: usize = 0;
        let mut res: Result<(), SymbolEvalError> = Ok(());
        while k < header.items.len()
            invariant_except_break
                goal == eval_items_m(self@, ms, k as int),
                res is Ok,
            invariant
                k <= header.items@.len(),
                ms == items_m(header.items@),
                ms.len() == header.items@.len(),
                forall|j: int| 0 <= j < header.items@.len() ==> #[trigger] ms[j] == item_m(header.items@[j]),
                completes(goal),
            ensures
                goal.0 == self@,
                match goal.1 {
                    None => res is Ok,
                    Some(x) => res matches Err(y) && eval_err_m(y) == x,
                },
            decreases header.items@.len() - k,
        {
            let ghost before = self@;
            let one = self.evaluate_header_item(&header.items[k]);
            proof {
                let (m2, e2) = eval_item_m(before, ms[k as int]);
                assert(eval_items_m(before, ms, k as int) == (if e2 is Some { (m2, e2) } else { eval_items_m(m2, ms, k + 1) }));
            }
            match one {
                Ok(()) => {},
                Err(e) => {
                    res = Err(e);
                    break;
                },
            }
            k += 1;
        }
        res
    }
}

/// Inserting a name the table does not hold succeeds and binds it to the
/// value, so a lookup of it finds the value; every other name keeps its
/// binding, or its absence. Inserting a name the table holds fails as a
/// duplicate and leaves the table as it was.
pub proof fn lemma_insert_then_lookup(m: TableM, name: Seq<u8>, value: i64, other: Seq<u8>)
    ensures
        !m.contains_key(name) ==> {
            let (m2, e) = insert_m(m, name, value);
            &&& e is None
            &&& m2.contains_key(name)
            &&& m2[name] == value
        },
        other != name ==> {
            let m2 = insert_m(m, name, value).0;
            &&& m2.contains_key(other) == m.contains_key(other)
            &&& m.contains_key(other) ==> m2[other] == m[other]
        },
        m.contains_key(name) ==> insert_m(m, name, value) == (m, Some(EvalErrM::Duplicate(name))),
        m.dom().finite() ==> insert_m(m, name, value).0.dom().finite(),
        m.dom().finite() && !m.contains_key(name) ==> insert_m(m, name, value).0.len() == m.len() + 1,
{
}

} // verus!
