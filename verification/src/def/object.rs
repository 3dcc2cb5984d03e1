//! Resolves `OBJECT` definitions to their mesh symbol and graphic type.
//!
//! Parses an `objects.def` file and walks the `specialises` inheritance chain
//! to find each definition's `Graphic.BankIndex` (mesh symbol) and
//! `Graphic.Type` (static, animated or none).

use vstd::prelude::*;
use vstd::string::StringSliceAdditionalSpecFns;
use crate::bytes::str_eq;
use crate::def::text::def_text::{
    by_name_v, def_file_m, defs_v, derr_matches, expr_text, file_matches, names_index, parse_def_file,
    path_text, DefFile, DefParseError, Definition, Expr, Statement,
};
use crate::def::text::def_text::{DefD, SpannedD};

verus! {

/// The resolved graphic type of an object definition.
#[derive(Debug, Clone, Copy, PartialEq, Eq)]
pub enum ObjectGraphicType {
    /// No graphic (`ENGINE_GRAPHIC_NULL`), also where no type is given.
    Null,
    StaticMesh,
    AnimatedMesh,
    Sprite,
    GeneratedEffect,
    Unknown,
}

/// The resolved mesh and graphic type of one object definition.
#[derive(Debug, Clone, PartialEq, Eq)]
pub struct ObjectGraphic {
    pub mesh_symbol: Option<String>,
    pub graphic_type: ObjectGraphicType,
}

/// The definitions of an `objects.def` file, for lookups by name.
pub struct ObjectDefs {
    defs: DefFile,
}

// ── the model ─────────────────────────────────────────────────────────────────

/// Every index in the name table of `defs` designates one of them.
pub proof fn lemma_names_index_in_range(defs: Seq<SpannedD<DefD>>)
    ensures
        forall|k: int| 0 <= k < names_index(defs).len() ==> 0 <= (#[trigger] names_index(defs)[k]).1 < defs.len(),
    decreases defs.len(),
{
    if defs.len() > 0 {
        let d = defs.drop_last();
        lemma_names_index_in_range(d);
        let m = names_index(d);
        let n = defs.last().value.name;
        assert forall|k: int| 0 <= k < names_index(defs).len() implies 0 <= (#[trigger] names_index(defs)[k]).1
            < defs.len() by {
            if exists|i: int| 0 <= i < m.len() && #[trigger] m[i].0 == n {
                let i = choose|i: int| 0 <= i < m.len() && #[trigger] m[i].0 == n;
                assert(names_index(defs) == m.update(i, (n, defs.len() - 1)));
                if k != i {
                    assert(names_index(defs)[k] == m[k]);
                }
            } else {
                assert(names_index(defs) == m.push((n, defs.len() - 1)));
                if k < m.len() {
                    assert(names_index(defs)[k] == m[k]);
                }
            }
        }
    }
}

/// The index paired with the first entry of `by_name` from `k` on that is
/// named `name`.
pub open spec fn lookup_from(by_name: Seq<(String, usize)>, name: Seq<char>, k: int) -> Option<int>
    decreases by_name.len() - k,
{
    if 0 <= k < by_name.len() {
        if by_name[k].0@ == name {
            Some(by_name[k].1 as int)
        } else {
            lookup_from(by_name, name, k + 1)
        }
    } else {
        None
    }
}

/// The definition of `f` named `name`.
pub open spec fn lookup_name(f: DefFile, name: Seq<char>) -> Option<int> {
    lookup_from(f.by_name@, name, 0)
}

/// The definition that definition `i` specialises, where that one exists.
pub open spec fn parent_of(f: DefFile, i: int) -> Option<int> {
    match f.definitions@[i].value.specializes {
        Some(p) => lookup_name(f, p@),
        None => None,
    }
}

/// The chain of definitions from `i` up through what each specialises, where
/// it ends within `fuel` steps.
pub open spec fn chain_from(f: DefFile, i: int, fuel: nat) -> Option<Seq<int>>
    decreases fuel,
{
    if fuel == 0 {
        None
    } else {
        match parent_of(f, i) {
            None => Some(seq![i]),
            Some(j) => match chain_from(f, j, (fuel - 1) as nat) {
                Some(c) => Some(seq![i] + c),
                None => None,
            },
        }
    }
}

/// Whether the `specialises` chain from definition `i` ends.
pub open spec fn chain_ends(f: DefFile, i: int) -> bool {
    exists|fuel: nat| #[trigger] chain_from(f, i, fuel) is Some
}

/// The chain of definitions from `i` (see [`chain_from`]).
pub open spec fn chain_of(f: DefFile, i: int) -> Seq<int> {
    chain_from(f, i, choose|fuel: nat| #[trigger] chain_from(f, i, fuel) is Some)->0
}

proof fn lemma_lookup_from_in_range(by_name: Seq<(String, usize)>, name: Seq<char>, k: int, n: int)
    requires
        0 <= k,
        forall|j: int| 0 <= j < by_name.len() ==> (#[trigger] by_name[j]).1 < n,
    ensures
        lookup_from(by_name, name, k) matches Some(x) ==> 0 <= x < n,
    decreases by_name.len() - k,
{
    if k < by_name.len() {
        lemma_lookup_from_in_range(by_name, name, k + 1, n);
    }
}

proof fn lemma_chain_more_fuel(f: DefFile, i: int, fuel: nat, more: nat)
    requires
        chain_from(f, i, fuel) is Some,
        fuel <= more,
    ensures
        chain_from(f, i, more) == chain_from(f, i, fuel),
    decreases fuel,
{
    if let Some(j) = parent_of(f, i) {
        lemma_chain_more_fuel(f, j, (fuel - 1) as nat, (more - 1) as nat);
    }
}

proof fn lemma_chain_links(f: DefFile, i: int, fuel: nat)
    requires
        chain_from(f, i, fuel) is Some,
    ensures
        ({
            let c = chain_from(f, i, fuel)->0;
            &&& 1 <= c.len() <= fuel
            &&& c[0] == i
            &&& forall|k: int| 0 <= k < c.len() - 1 ==> parent_of(f, #[trigger] c[k]) == Some(c[k + 1])
            &&& chain_from(f, i, c.len()) == Some(c)
        }),
    decreases fuel,
{
    let c = chain_from(f, i, fuel)->0;
    if let Some(j) = parent_of(f, i) {
        lemma_chain_links(f, j, (fuel - 1) as nat);
        let d = chain_from(f, j, (fuel - 1) as nat)->0;
        assert(c == seq![i] + d);
        assert forall|k: int| 0 <= k < c.len() - 1 implies parent_of(f, #[trigger] c[k]) == Some(c[k + 1]) by {
            if k > 0 {
                assert(c[k] == d[k - 1]);
                assert(c[k + 1] == d[k]);
            }
        }
    }
}

proof fn lemma_chain_suffix(f: DefFile, i: int, fuel: nat, a: int)
    requires
        chain_from(f, i, fuel) is Some,
        0 <= a < (chain_from(f, i, fuel)->0).len(),
    ensures
        a <= fuel,
        chain_from(f, (chain_from(f, i, fuel)->0)[a], (fuel - a) as nat) == Some((chain_from(f, i, fuel)->0).skip(a)),
    decreases a,
{
    let c = chain_from(f, i, fuel)->0;
    lemma_chain_links(f, i, fuel);
    if a == 0 {
        assert(c.skip(0) =~= c);
    } else {
        let j = parent_of(f, i)->0;
        let d = chain_from(f, j, (fuel - 1) as nat)->0;
        assert(c == seq![i] + d);
        lemma_chain_suffix(f, j, (fuel - 1) as nat, a - 1);
        assert(c[a] == d[a - 1]);
        assert(c.skip(a) =~= d.skip(a - 1));
    }
}

proof fn lemma_chain_no_duplicates(f: DefFile, i: int, fuel: nat)
    requires
        chain_from(f, i, fuel) is Some,
    ensures
        (chain_from(f, i, fuel)->0).no_duplicates(),
{
    let c = chain_from(f, i, fuel)->0;
    assert forall|a: int, b: int| 0 <= a < c.len() && 0 <= b < c.len() && a != b implies c[a] != c[b] by {
        if c[a] == c[b] {
            lemma_chain_suffix(f, i, fuel, a);
            lemma_chain_suffix(f, i, fuel, b);
            let x = c[a];
            let fa = (fuel - a) as nat;
            let fb = (fuel - b) as nat;
            if fa <= fb {
                lemma_chain_more_fuel(f, x, fa, fb);
            } else {
                lemma_chain_more_fuel(f, x, fb, fa);
            }
            assert(c.skip(a).len() == c.skip(b).len());
        }
    }
}

proof fn lemma_chain_in_range(f: DefFile, c: Seq<int>, n: nat, k: int)
    requires
        0 <= k < c.len(),
        0 <= c[0] < n,
        forall|j: int| 0 <= j < c.len() - 1 ==> parent_of(f, #[trigger] c[j]) == Some(c[j + 1]),
        forall|x: int| 0 <= x < n ==> (#[trigger] parent_of(f, x) matches Some(y) ==> 0 <= y < n),
    ensures
        0 <= c[k] < n,
    decreases k,
{
    if k > 0 {
        lemma_chain_in_range(f, c, n, k - 1);
        assert(parent_of(f, c[k - 1]) == Some(c[k]));
    }
}

/// A `specialises` chain that ends, among `n` definitions whose parents
/// are all among them, ends within `n` steps: it never visits a
/// definition twice.
pub proof fn lemma_chain_ends_within(f: DefFile, i: int, n: nat)
    requires
        0 <= i < n,
        forall|x: int| 0 <= x < n ==> (#[trigger] parent_of(f, x) matches Some(y) ==> 0 <= y < n),
        chain_ends(f, i),
    ensures
        chain_from(f, i, n) is Some,
{
    let fuel = choose|fuel: nat| #[trigger] chain_from(f, i, fuel) is Some;
    let c = chain_from(f, i, fuel)->0;
    lemma_chain_links(f, i, fuel);
    lemma_chain_no_duplicates(f, i, fuel);
    assert forall|k: int| 0 <= k < c.len() implies 0 <= #[trigger] c[k] < n by {
        lemma_chain_in_range(f, c, n, k);
    }
    c.unique_seq_to_set();
    vstd::set_lib::lemma_int_range(0, n as int);
    assert(c.to_set().subset_of(vstd::set_lib::set_int_range(0, n as int)));
    vstd::set_lib::lemma_len_subset(c.to_set(), vstd::set_lib::set_int_range(0, n as int));
    lemma_chain_more_fuel(f, i, c.len(), n);
}

/// The text of an expression as a property value: a number, string or
/// symbol as written, `TRUE`/`FALSE`, a constructor's name, or the rendering
/// of a `|` or `+` expression.
pub open spec fn expr_value(e: Expr) -> Seq<char> {
    match e {
        Expr::Number(s) => s@,
        Expr::String(s) => s@,
        Expr::Symbol(s) => s@,
        Expr::Bool(b) => if b {
            "TRUE"@
        } else {
            "FALSE"@
        },
        Expr::Constructor(c) => c.name@,
        _ => expr_text(e),
    }
}

/// The properties the field statements of `body` set, in order: the path's
/// text and the value's.
pub open spec fn field_props(body: Seq<crate::def::text::base::Spanned<Statement>>) -> Seq<(Seq<char>, Seq<char>)>
    decreases body.len(),
{
    if body.len() == 0 {
        Seq::empty()
    } else {
        let prev = field_props(body.drop_last());
        match body.last().value {
            Statement::Field(fd) => prev.push((path_text(fd.path.segments@), expr_value(fd.expr.value))),
            _ => prev,
        }
    }
}

/// The properties along `chain` (a definition first, what it specialises
/// after), the root's first and the definition's own last.
pub open spec fn chain_props(f: DefFile, chain: Seq<int>) -> Seq<(Seq<char>, Seq<char>)>
    decreases chain.len(),
{
    if chain.len() == 0 {
        Seq::empty()
    } else {
        chain_props(f, chain.drop_first()) + field_props(f.definitions@[chain[0]].value.body@)
    }
}

/// The value of the last property named `key` among the first `n` of
/// `props`.
pub open spec fn last_value(props: Seq<(Seq<char>, Seq<char>)>, key: Seq<char>, n: int) -> Option<Seq<char>>
    decreases n,
{
    if n <= 0 || n > props.len() {
        None
    } else if props[n - 1].0 == key {
        Some(props[n - 1].1)
    } else {
        last_value(props, key, n - 1)
    }
}

/// The graphic type a `Graphic.Type` value names.
pub open spec fn graphic_type_of(s: Seq<char>) -> ObjectGraphicType {
    if s == "ENGINE_GRAPHIC_NULL"@ {
        ObjectGraphicType::Null
    } else if s == "ENGINE_GRAPHIC_STATIC_MESH"@ {
        ObjectGraphicType::StaticMesh
    } else if s == "ENGINE_GRAPHIC_ANIMATING_MESH"@ {
        ObjectGraphicType::AnimatedMesh
    } else if s == "ENGINE_GRAPHIC_SPRITE"@ {
        ObjectGraphicType::Sprite
    } else if s == "ENGINE_GRAPHIC_GENERATED_EFFECT"@ {
        ObjectGraphicType::GeneratedEffect
    } else {
        ObjectGraphicType::Unknown
    }
}

/// The mesh symbol among `props`: the last `Graphic.BankIndex` (along a
/// chain listed root first, the definition's own overrides its ancestors'),
/// unless empty.
pub open spec fn mesh_of(props: Seq<(Seq<char>, Seq<char>)>) -> Option<Seq<char>> {
    match last_value(props, "Graphic.BankIndex"@, props.len() as int) {
        Some(v) => if v.len() == 0 {
            None
        } else {
            Some(v)
        },
        None => None,
    }
}

/// The graphic type among `props`: that of the last `Graphic.Type`, else
/// none.
pub open spec fn type_of(props: Seq<(Seq<char>, Seq<char>)>) -> ObjectGraphicType {
    match last_value(props, "Graphic.Type"@, props.len() as int) {
        Some(v) => graphic_type_of(v),
        None => ObjectGraphicType::Null,
    }
}

/// The graphic `g` is the mesh symbol `mesh` and type `t`.
pub open spec fn graphic_matches(g: ObjectGraphic, mesh: Option<Seq<char>>, t: ObjectGraphicType) -> bool {
    &&& g.graphic_type == t
    &&& match mesh {
        Some(m) => g.mesh_symbol matches Some(s) && s@ == m,
        None => g.mesh_symbol is None,
    }
}

impl ObjectDefs {
    /// The parsed definition file.
    pub closed spec fn file(self) -> DefFile {
        self.defs
    }

    #[verifier::type_invariant]
    spec fn indices_in_range(self) -> bool {
        forall|k: int|
            0 <= k < self.defs.by_name@.len() ==> (#[trigger] self.defs.by_name@[k]).1 < self.defs.definitions@.len()
    }
}

/// A chain of indices as integers.
pub open spec fn ints(v: Seq<usize>) -> Seq<int> {
    v.map_values(|x: usize| x as int)
}

/// The chain `p` in front of a chain that ends.
pub open spec fn prefix_then(p: Seq<int>, r: Option<Seq<int>>) -> Option<Seq<int>> {
    match r {
        Some(c) => Some(p + c),
        None => None,
    }
}

/// Properties by the views of their texts.
pub open spec fn props_v(v: Seq<(String, String)>) -> Seq<(Seq<char>, Seq<char>)> {
    v.map_values(|p: (String, String)| (p.0@, p.1@))
}

// ── the code ──────────────────────────────────────────────────────────────────

fn parse_graphic_type(s: &str) -> (r: ObjectGraphicType)
    ensures
        r == graphic_type_of(s@),
{
    if str_eq(s, "ENGINE_GRAPHIC_NULL") {
        ObjectGraphicType::Null
    } else if str_eq(s, "ENGINE_GRAPHIC_STATIC_MESH") {
        ObjectGraphicType::StaticMesh
    } else if str_eq(s, "ENGINE_GRAPHIC_ANIMATING_MESH") {
        ObjectGraphicType::AnimatedMesh
    } else if str_eq(s, "ENGINE_GRAPHIC_SPRITE") {
        ObjectGraphicType::Sprite
    } else if str_eq(s, "ENGINE_GRAPHIC_GENERATED_EFFECT") {
        ObjectGraphicType::GeneratedEffect
    } else {
        ObjectGraphicType::Unknown
    }
}

fn expr_to_string(e: &Expr) -> (r: String)
    ensures
        r@ == expr_value(*e),
{
    match e {
        Expr::Number(s) => s.clone(),
        Expr::String(s) => s.clone(),
        Expr::Symbol(s) => s.clone(),
        Expr::Bool(b) => if *b {
            "TRUE".to_owned()
        } else {
            "FALSE".to_owned()
        },
        Expr::Constructor(c) => c.name.clone(),
        _ => e.to_string(),
    }
}

/// The index of the last property named `key`.
fn last_value_at(props: &Vec<(String, String)>, key: &str) -> (r: Option<usize>)
    ensures
        match last_value(props_v(props@), key@, props@.len() as int) {
            Some(v) => r matches Some(k) && k < props@.len() && props@[k as int].1@ == v,
            None => r is None,
        },
{
    let ghost pv = props_v(props@);
    let mut k: usize = props.len();
    while k > 0
        invariant
            pv == props_v(props@),
            k <= props@.len(),
            last_value(pv, key@, props@.len() as int) == last_value(pv, key@, k as int),
        decreases k,
    {
        if str_eq(props[k - 1].0.as_str(), key) {
            return Some(k - 1);
        }
        k -= 1;
    }
    None
}

impl ObjectDefs {
    /// Parses an `objects.def` text (see [`parse_def_file`]).
    pub fn parse(input: &str) -> (r: Result<Self, DefParseError>)
        ensures
            match def_file_m(input.spec_bytes()) {
                Ok(m) => r matches Ok(o) && file_matches(o.file(), m),
                Err(x) => r matches Err(y) && derr_matches(y, x),
            },
    {
        match parse_def_file(input) {
            Ok(f) => {
                proof {
                    let m = def_file_m(input.spec_bytes())->Ok_0;
                    lemma_names_index_in_range(m.defs);
                    assert forall|k: int| 0 <= k < f.by_name@.len() implies (#[trigger] f.by_name@[k]).1
                        < f.definitions@.len() by {
                        assert(by_name_v(f.by_name@)[k] == names_index(m.defs)[k]);
                        assert(defs_v(f.definitions@).len() == f.definitions@.len());
                    }
                }
                Ok(ObjectDefs { defs: f })
            },
            Err(e) => Err(e),
        }
    }

    /// The index of the definition named `name`.
    fn find_def(&self, name: &str) -> (r: Option<usize>)
        ensures
            match lookup_name(self.file(), name@) {
                Some(i) => r matches Some(j) && j == i && j < self.file().definitions@.len(),
                None => r is None,
            },
    {
        proof {
            use_type_invariant(self);
        }
        let by_name = &self.defs.by_name;
        let mut k: usize = 0;
        while k < by_name.len()
            invariant
                by_name@ == self.defs.by_name@,
                forall|j: int|
                    0 <= j < self.defs.by_name@.len() ==> (#[trigger] self.defs.by_name@[j]).1
                        < self.defs.definitions@.len(),
                k <= by_name@.len(),
                lookup_from(by_name@, name@, 0) == lookup_from(by_name@, name@, k as int),
            decreases by_name@.len() - k,
        {
            if str_eq(by_name[k].0.as_str(), name) {
                return Some(by_name[k].1);
            }
            k += 1;
        }
        None
    }

    /// The chain of definitions from `i` through what each specialises.
    fn chain(&self, i: usize) -> (r: Vec<usize>)
        requires
            i < self.file().definitions@.len(),
            chain_ends(self.file(), i as int),
        ensures
            ints(r@) == chain_of(self.file(), i as int),
            forall|k: int| 0 <= k < r@.len() ==> #[trigger] r@[k] < self.file().definitions@.len(),
    {
        let ghost f = self.file();
        let ghost f0 = choose|fuel: nat| #[trigger] chain_from(f, i as int, fuel) is Some;
        let mut chain: Vec<usize> = Vec::new();
        let mut cur = i;
        assert(ints(chain@) =~= Seq::<int>::empty());
        assert(prefix_then(Seq::<int>::empty(), chain_from(f, i as int, f0)) == chain_from(f, i as int, f0)) by {
            assert(Seq::<int>::empty() + chain_from(f, i as int, f0)->0 =~= chain_from(f, i as int, f0)->0);
        }
        loop
            invariant
                f == self.file(),
                f0 == choose|fuel: nat| #[trigger] chain_from(f, i as int, fuel) is Some,
                chain_from(f, i as int, f0) is Some,
                cur < f.definitions@.len(),
                chain@.len() < f0,
                chain_from(f, cur as int, (f0 - chain@.len()) as nat) is Some,
                chain_from(f, i as int, f0) == prefix_then(
                    ints(chain@),
                    chain_from(f, cur as int, (f0 - chain@.len()) as nat),
                ),
                forall|k: int| 0 <= k < chain@.len() ==> #[trigger] chain@[k] < f.definitions@.len(),
            decreases f0 - chain@.len(),
        {
            let ghost rem = (f0 - chain@.len()) as nat;
            let ghost before = ints(chain@);
            chain.push(cur);
            assert(ints(chain@) =~= before.push(cur as int));
            let next = match &self.defs.definitions[cur].value.specializes {
                Some(p) => self.find_def(p.as_str()),
                None => None,
            };
            match next {
                Some(j) => {
                    proof {
                        let c = chain_from(f, j as int, (rem - 1) as nat)->0;
                        assert(before + (seq![cur as int] + c) =~= before.push(cur as int) + c);
                    }
                    cur = j;
                },
                None => {
                    assert(before + seq![cur as int] =~= before.push(cur as int));
                    return chain;
                },
            }
        }
    }

    /// The properties along `chain`, the root's first.
    fn collect_properties(&self, chain: &Vec<usize>) -> (r: Vec<(String, String)>)
        requires
            forall|k: int| 0 <= k < chain@.len() ==> #[trigger] chain@[k] < self.file().definitions@.len(),
        ensures
            props_v(r@) == chain_props(self.file(), ints(chain@)),
    {
        let ghost f = self.file();
        let ghost c = ints(chain@);
        let mut props: Vec<(String, String)> = Vec::new();
        let mut j = chain.len();
        assert(c.skip(j as int) =~= Seq::<int>::empty());
        assert(props_v(props@) =~= Seq::<(Seq<char>, Seq<char>)>::empty());
        while j > 0
            invariant
                f == self.file(),
                c == ints(chain@),
                j <= chain@.len(),
                forall|k: int| 0 <= k < chain@.len() ==> #[trigger] chain@[k] < f.definitions@.len(),
                props_v(props@) == chain_props(f, c.skip(j as int)),
            decreases j,
        {
            j -= 1;
            let body = &self.defs.definitions[chain[j]].value.body;
            let ghost base = props_v(props@);
            let mut s: usize = 0;
            assert(body@.take(0) =~= Seq::<crate::def::text::base::Spanned<Statement>>::empty());
            assert(base + field_props(body@.take(0)) =~= base);
            while s < body.len()
                invariant
                    props_v(props@) == base + field_props(body@.take(s as int)),
                    s <= body@.len(),
                decreases body@.len() - s,
            {
                assert(body@.take(s + 1).drop_last() =~= body@.take(s as int));
                match &body[s].value {
                    Statement::Field(fd) => {
                        let key = fd.path.to_string();
                        let val = expr_to_string(&fd.expr.value);
                        let ghost pre = props_v(props@);
                        props.push((key, val));
                        assert(props_v(props@) =~= pre.push((key@, val@)));
                    },
                    _ => {},
                }
                s += 1;
            }
            assert(body@.take(body@.len() as int) =~= body@);
            assert(c.skip(j as int).drop_first() =~= c.skip(j + 1));
        }
        assert(c.skip(0) =~= c);
        props
    }

    /// Resolves the object definition `name` (e.g. `"OBJECT_MARKER"`):
    /// walks its `specialises` chain and reads its `Graphic.BankIndex` and
    /// `Graphic.Type` properties, a definition's own overriding those of
    /// what it specialises.
    pub fn resolve(&self, name: &str) -> (r: Option<ObjectGraphic>)
        requires
            match lookup_name(self.file(), name@) {
                Some(i) => chain_ends(self.file(), i),
                None => true,
            },
        ensures
            match lookup_name(self.file(), name@) {
                None => r is None,
                Some(i) => r matches Some(g) && graphic_matches(
                    g,
                    mesh_of(chain_props(self.file(), chain_of(self.file(), i))),
                    type_of(chain_props(self.file(), chain_of(self.file(), i))),
                ),
            },
    {
        let i = match self.find_def(name) {
            Some(i) => i,
            None => {
                return None;
            },
        };
        let chain = self.chain(i);
        let properties = self.collect_properties(&chain);
        let mesh_symbol = match last_value_at(&properties, "Graphic.BankIndex") {
            Some(k) => if properties[k].1.as_str().is_empty() {
                None
            } else {
                Some(properties[k].1.clone())
            },
            None => None,
        };
        let graphic_type = match last_value_at(&properties, "Graphic.Type") {
            Some(k) => parse_graphic_type(properties[k].1.as_str()),
            None => ObjectGraphicType::Null,
        };
        Some(ObjectGraphic { mesh_symbol, graphic_type })
    }

    /// Whether the `specialises` chain from definition `i` ends within
    /// `fuel` steps (see [`chain_from`]).
    fn ends_within(&self, i: usize, fuel: usize) -> (r: bool)
        requires
            i < self.file().definitions@.len(),
        ensures
            r == (chain_from(self.file(), i as int, fuel as nat) is Some),
    {
        let ghost f = self.file();
        let mut cur = i;
        let mut k = fuel;
        while k > 0
            invariant
                f == self.file(),
                cur < f.definitions@.len(),
                k <= fuel,
                (chain_from(f, i as int, fuel as nat) is Some) == (chain_from(f, cur as int, k as nat) is Some),
            decreases k,
        {
            let next = match &self.defs.definitions[cur].value.specializes {
                Some(p) => self.find_def(p.as_str()),
                None => None,
            };
            match next {
                Some(j) => {
                    cur = j;
                    k -= 1;
                },
                None => {
                    return true;
                },
            }
        }
        false
    }

    /// Resolves the object definition `name` as [`ObjectDefs::resolve`]
    /// does, where its `specialises` chain ends; `None` where it does not
    /// (a chain that runs in a cycle) or where no definition is named
    /// `name`. A chain is followed for at most as many steps as there are
    /// definitions, which is enough for every chain that ends.
    pub fn resolve_checked(&self, name: &str) -> (r: Option<ObjectGraphic>)
        ensures
            match lookup_name(self.file(), name@) {
                None => r is None,
                Some(i) => if chain_ends(self.file(), i) {
                    r matches Some(g) && graphic_matches(
                        g,
                        mesh_of(chain_props(self.file(), chain_of(self.file(), i))),
                        type_of(chain_props(self.file(), chain_of(self.file(), i))),
                    )
                } else {
                    r is None
                },
            },
    {
        let i = match self.find_def(name) {
            Some(i) => i,
            None => {
                return None;
            },
        };
        let n = self.defs.definitions.len();
        if !self.ends_within(i, n) {
            proof {
                use_type_invariant(self);
                let f = self.file();
                assert forall|x: int| 0 <= x < n implies (#[trigger] parent_of(f, x) matches Some(y) ==> 0 <= y
                    < n) by {
                    if let Some(p) = f.definitions@[x].value.specializes {
                        lemma_lookup_from_in_range(f.by_name@, p@, 0, n as int);
                    }
                }
                if chain_ends(f, i as int) {
                    lemma_chain_ends_within(f, i as int, n as nat);
                }
            }
            return None;
        }
        proof {
            let fuel = self.file().definitions@.len() as nat;
            assert(chain_from(self.file(), i as int, fuel) is Some);
            assert(chain_ends(self.file(), i as int));
        }
        self.resolve(name)
    }
}

} // verus!
