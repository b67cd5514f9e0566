use crate::interpreter::error::{res_view, ErrorType, Fault};
use crate::interpreter::validity::state_ok;
use crate::interpreter::value::{LoxType, Val};
use vstd::prelude::*;

verus! {

/// One variable: the environment it lives in, its name and its value.
pub struct Binding {
    pub frame: usize,
    pub name: String,
    pub value: LoxType,
}

impl View for Binding {
    type V = (usize, Seq<char>, Val);

    open spec fn view(&self) -> (usize, Seq<char>, Val) {
        (self.frame, self.name@, self.value@)
    }
}

/// The evaluator's whole mutable state: every environment created so far,
/// every binding, the lines `print` has written, and the time `clock` reports.
///
/// Environments are numbered in order of creation; `parents[e]` is the
/// parent of environment `e`. A parent is always older than its child, and
/// no environment knows its children. Environments live as long as the
/// interpreter, so a closure's environment outlives the scope that made it.
/// Lines that `print` writes are collected in `output`, for the host to show.
pub struct Interp {
    pub parents: Vec<Option<usize>>,
    pub bindings: Vec<Binding>,
    pub output: Vec<String>,
    pub now: i64,
}

/// The mathematical picture of an `Interp`.
pub struct Model {
    pub parents: Seq<Option<usize>>,
    pub bindings: Seq<(usize, Seq<char>, Val)>,
    pub output: Seq<Seq<char>>,
    pub now: i64,
}

impl View for Interp {
    type V = Model;

    open spec fn view(&self) -> Model {
        Model {
            parents: self.parents@,
            bindings: self.bindings@.map_values(|b: Binding| b@),
            output: self.output@.map_values(|s: String| s@),
            now: self.now,
        }
    }
}

/// Every parent link points to an older environment.
pub open spec fn parents_ok(m: Model) -> bool {
    forall|e: int| 0 <= e < m.parents.len() ==> match #[trigger] m.parents[e] {
        Some(p) => p < e,
        None => true,
    }
}

/// First index at or after `i` of a binding of `name` in environment `f`.
pub open spec fn first_match(b: Seq<(usize, Seq<char>, Val)>, f: usize, name: Seq<char>, i: int) -> Option<int>
    decreases b.len() - i,
{
    if i < 0 || i >= b.len() {
        None
    } else if b[i].0 == f && b[i].1 == name {
        Some(i)
    } else {
        first_match(b, f, name, i + 1)
    }
}

/// The binding that `name` denotes from environment `f`: the nearest one
/// walking outward through the parents.
pub open spec fn lookup(m: Model, f: usize, name: Seq<char>) -> Option<int>
    decreases f,
{
    match first_match(m.bindings, f, name, 0) {
        Some(i) => Some(i),
        None => if f < m.parents.len() {
            match m.parents[f as int] {
                Some(p) => if p < f { lookup(m, p, name) } else { None },
                None => None,
            }
        } else {
            None
        },
    }
}

/// A fresh empty environment whose parent is `f` (none if `f` does not exist).
pub open spec fn wrap_spec(m: Model, f: usize) -> (Model, usize) {
    (
        Model {
            parents: m.parents.push(if f < m.parents.len() { Some(f) } else { None }),
            ..m
        },
        m.parents.len() as usize,
    )
}

/// Binds `name` to `v` in environment `f` itself, overwriting a binding of
/// the same name there.
pub open spec fn define_spec(m: Model, f: usize, name: Seq<char>, v: Val) -> Model {
    let nb = (f, name, v);
    match first_match(m.bindings, f, name, 0) {
        Some(i) => Model { bindings: m.bindings.update(i, nb), ..m },
        None => Model { bindings: m.bindings.push(nb), ..m },
    }
}

/// The value of `name` seen from `f`.
pub open spec fn get_spec(m: Model, f: usize, name: Seq<char>) -> Result<Val, Fault> {
    match lookup(m, f, name) {
        Some(i) => Ok(m.bindings[i].2),
        None => Err(Fault::Undefined(name)),
    }
}

/// Assignment to the nearest existing binding of `name` seen from `f`.
pub open spec fn set_spec(m: Model, f: usize, name: Seq<char>, v: Val) -> (Model, Result<Val, Fault>) {
    match lookup(m, f, name) {
        Some(i) => (
            Model { bindings: m.bindings.update(i, (m.bindings[i].0, m.bindings[i].1, v)), ..m },
            Ok(v),
        ),
        None => (m, Err(Fault::Undefined(name))),
    }
}

/// A match that `first_match` finds is a binding of that name in that
/// environment, at or after `i`.
pub proof fn lemma_first_match_in(b: Seq<(usize, Seq<char>, Val)>, f: usize, name: Seq<char>, i: int)
    ensures
        first_match(b, f, name, i) matches Some(j) ==> i <= j < b.len() && b[j].0 == f && b[j].1 == name,
    decreases b.len() - i,
{
    if 0 <= i < b.len() {
        lemma_first_match_in(b, f, name, i + 1);
    }
}

pub proof fn lemma_lookup_in(m: Model, f: usize, name: Seq<char>)
    ensures
        lookup(m, f, name) matches Some(j) ==> 0 <= j < m.bindings.len() && m.bindings[j].1 == name,
    decreases f,
{
    lemma_first_match_in(m.bindings, f, name, 0);
    if f < m.parents.len() {
        if let Some(p) = m.parents[f as int] {
            if p < f {
                lemma_lookup_in(m, p, name);
            }
        }
    }
}

/// Relies on std::time::SystemTime::now and duration_since(UNIX_EPOCH): the
/// whole seconds since the Unix epoch, or 0 for a clock set before it. The
/// value depends on the machine's clock, so nothing is promised of it.
#[verifier::external_body]
fn epoch_seconds() -> (r: u64) {
    std::time::SystemTime::now().duration_since(std::time::UNIX_EPOCH).map(|d| d.as_secs()).unwrap_or(0)
}

impl Interp {
    /// Reads the system clock into the time that `clock` reports; nothing
    /// else changes.
    pub fn refresh_clock(&mut self)
        ensures
            final(self)@ == (Model { now: final(self)@.now, ..old(self)@ }),
            final(self)@.now >= 0,
    {
        let secs = epoch_seconds();
        self.now = if secs > 0x7fff_ffff_ffff_ffff { 0x7fff_ffff_ffff_ffff } else { secs as i64 };
    }

    /// An interpreter with one empty root environment, numbered 0.
    pub fn new() -> (r: Interp)
        ensures
            r@.parents == seq![None::<usize>],
            r@.bindings.len() == 0,
            r@.output.len() == 0,
            r@.now == 0,
            state_ok(r@),
    {
        let mut parents: Vec<Option<usize>> = Vec::new();
        parents.push(None);
        let r = Interp { parents, bindings: Vec::new(), output: Vec::new(), now: 0 };
        assert(r@.output =~= Seq::<Seq<char>>::empty());
        assert(r@.bindings =~= Seq::<(usize, Seq<char>, Val)>::empty());
        assert(r@.parents =~= seq![None::<usize>]);
        r
    }

    /// Creates an empty environment whose parent is `parent`.
    pub fn wrap(&mut self, parent: usize) -> (r: usize)
        ensures
            (final(self)@, r) == wrap_spec(old(self)@, parent),
    {
        let r = self.parents.len();
        if parent < self.parents.len() {
            self.parents.push(Some(parent));
        } else {
            self.parents.push(None);
        }
        proof {
            assert(final(self)@.output =~= old(self)@.output);
            assert(final(self)@.bindings =~= old(self)@.bindings);
        }
        r
    }

    fn find_local(&self, f: usize, name: &String) -> (r: Option<usize>)
        ensures
            match r {
                Some(i) => first_match(self@.bindings, f, name@, 0) == Some(i as int),
                None => first_match(self@.bindings, f, name@, 0) is None,
            },
    {
        let mut i: usize = 0;
        while i < self.bindings.len()
            invariant
                i <= self.bindings.len(),
                first_match(self@.bindings, f, name@, 0) == first_match(self@.bindings, f, name@, i as int),
            decreases self.bindings.len() - i,
        {
            if self.bindings[i].frame == f && self.bindings[i].name.eq(name) {
                return Some(i);
            }
            i = i + 1;
        }
        None
    }

    fn find(&self, f: usize, name: &String) -> (r: Option<usize>)
        ensures
            match r {
                Some(i) => lookup(self@, f, name@) == Some(i as int),
                None => lookup(self@, f, name@) is None,
            },
    {
        let mut cur = f;
        loop
            invariant
                lookup(self@, f, name@) == lookup(self@, cur, name@),
            decreases cur,
        {
            match self.find_local(cur, name) {
                Some(i) => {
                    return Some(i);
                },
                None => {},
            }
            if cur >= self.parents.len() {
                return None;
            }
            match self.parents[cur] {
                Some(p) => {
                    if p < cur {
                        cur = p;
                    } else {
                        return None;
                    }
                },
                None => {
                    return None;
                },
            }
        }
    }

    /// Binds `name` in environment `f` itself.
    pub fn define(&mut self, f: usize, name: &String, v: LoxType)
        ensures
            final(self)@ == define_spec(old(self)@, f, name@, v@),
    {
        let nb = Binding { frame: f, name: name.clone(), value: v };
        match self.find_local(f, name) {
            Some(i) => {
                proof { lemma_first_match_in(self@.bindings, f, name@, 0); }
                self.bindings.set(i, nb);
                proof {
                    assert(final(self)@.bindings =~= old(self)@.bindings.update(i as int, (f, name@, v@)));
                }
            },
            None => {
                self.bindings.push(nb);
                proof {
                    assert(final(self)@.bindings =~= old(self)@.bindings.push((f, name@, v@)));
                }
            },
        }
        proof {
            assert(final(self)@.output =~= old(self)@.output);
        }
    }

    /// The value `name` has seen from `f`.
    pub fn get(&self, f: usize, name: &String) -> (r: Result<LoxType, ErrorType>)
        ensures
            res_view(r) == get_spec(self@, f, name@),
    {
        match self.find(f, name) {
            Some(i) => {
                proof { lemma_lookup_in(self@, f, name@); }
                Ok(self.bindings[i].value.duplicate())
            },
            None => Err(ErrorType::UndefinedVariable(name.clone())),
        }
    }

    /// Assigns to the nearest existing binding of `name` seen from `f`.
    pub fn set(&mut self, f: usize, name: &String, v: LoxType) -> (r: Result<LoxType, ErrorType>)
        ensures
            (final(self)@, res_view(r)) == set_spec(old(self)@, f, name@, v@),
    {
        match self.find(f, name) {
            Some(i) => {
                proof { lemma_lookup_in(self@, f, name@); }
                let nb = Binding {
                    frame: self.bindings[i].frame,
                    name: self.bindings[i].name.clone(),
                    value: v.duplicate(),
                };
                self.bindings.set(i, nb);
                proof {
                    let ob = old(self)@.bindings;
                    assert(final(self)@.bindings =~= ob.update(i as int, (ob[i as int].0, ob[i as int].1, v@)));
                    assert(final(self)@.output =~= old(self)@.output);
                }
                Ok(v)
            },
            None => Err(ErrorType::UndefinedVariable(name.clone())),
        }
    }
}

} // verus!
