//! An ordered set of environment variables: each name once, in the order in
//! which the names were last set.

use vstd::prelude::*;
use vstd::string::StringExecFns;
use crate::text::same_text;

verus! {

/// A variable: its name and its value.
pub type Variable = (Seq<char>, Seq<char>);

/// No name occurs twice.
pub open spec fn distinct_names(vars: Seq<Variable>) -> bool {
    forall|i: int, j: int| 0 <= i < j < vars.len() ==> vars[i].0 != vars[j].0
}

/// Whether some variable has the name.
pub open spec fn has_name(vars: Seq<Variable>, name: Seq<char>) -> bool {
    exists|i: int| 0 <= i < vars.len() && #[trigger] vars[i].0 == name
}

/// The variables that have another name, in their order.
pub open spec fn without_name(vars: Seq<Variable>, name: Seq<char>) -> Seq<Variable> {
    vars.filter(|v: Variable| v.0 != name)
}

/// The variables after one is set: it comes last, and an earlier one of the
/// same name is gone.
pub open spec fn with_variable(vars: Seq<Variable>, name: Seq<char>, value: Seq<char>) -> Seq<
    Variable,
> {
    without_name(vars, name).push((name, value))
}

/// The variables after each of `more` is set, in turn.
pub open spec fn with_all(vars: Seq<Variable>, more: Seq<Variable>) -> Seq<Variable>
    decreases more.len(),
{
    if more.len() == 0 {
        vars
    } else {
        with_variable(with_all(vars, more.drop_last()), more.last().0, more.last().1)
    }
}

/// The value of the last variable of that name.
pub open spec fn value_of(vars: Seq<Variable>, name: Seq<char>) -> Option<Seq<char>>
    decreases vars.len(),
{
    if vars.len() == 0 {
        None
    } else if vars.last().0 == name {
        Some(vars.last().1)
    } else {
        value_of(vars.drop_last(), name)
    }
}

/// Leaving a name out keeps the others as they were: each variable that is
/// left was there, none has the name, and the order is kept.
pub proof fn without_name_keeps_others(vars: Seq<Variable>, name: Seq<char>)
    ensures
        without_name(vars, name).len() <= vars.len(),
        !has_name(without_name(vars, name), name),
        forall|v: Variable| #[trigger]
            without_name(vars, name).contains(v) <==> vars.contains(v) && v.0 != name,
        distinct_names(vars) ==> distinct_names(without_name(vars, name)),
        forall|other: Seq<char>|
            other != name ==> #[trigger] value_of(without_name(vars, name), other) == value_of(
                vars,
                other,
            ),
        !has_name(vars, name) ==> without_name(vars, name) == vars,
    decreases vars.len(),
{
    reveal(Seq::filter);
    let keep = |v: Variable| v.0 != name;
    let out = without_name(vars, name);
    if vars.len() == 0 {
        assert(out =~= vars);
    } else {
        let head = vars.drop_last();
        let last = vars.last();
        without_name_keeps_others(head, name);
        let head_out = without_name(head, name);
        assert(out == if keep(last) {
            head_out.push(last)
        } else {
            head_out
        });
        assert forall|v: Variable| #[trigger] out.contains(v) <==> vars.contains(v) && v.0
            != name by {
            if out.contains(v) {
                let i = choose|i: int| 0 <= i < out.len() && out[i] == v;
                if i < head_out.len() {
                    assert(head_out[i] == v);
                    assert(head_out.contains(v));
                    let k = choose|k: int| 0 <= k < head.len() && head[k] == v;
                    assert(vars[k] == v);
                } else {
                    assert(vars[vars.len() - 1] == v);
                }
            }
            if vars.contains(v) && v.0 != name {
                let k = choose|k: int| 0 <= k < vars.len() && vars[k] == v;
                if k < head.len() {
                    assert(head[k] == v);
                    assert(head.contains(v));
                    assert(head_out.contains(v));
                    let i = choose|i: int| 0 <= i < head_out.len() && head_out[i] == v;
                    assert(out[i] == v);
                } else {
                    assert(out[out.len() - 1] == v);
                }
            }
        }
        if has_name(out, name) {
            let i = choose|i: int| 0 <= i < out.len() && out[i].0 == name;
            assert(out.contains(out[i]));
        }
        if distinct_names(vars) {
            assert forall|i: int, j: int| 0 <= i < j < head.len() implies head[i].0
                != head[j].0 by {
                assert(vars[i].0 != vars[j].0);
            }
            assert forall|i: int, j: int| 0 <= i < j < out.len() implies out[i].0 != out[j].0 by {
                if j == head_out.len() {
                    assert(head_out[i] == out[i]);
                    assert(head_out.contains(out[i]));
                    let k = choose|k: int| 0 <= k < head.len() && head[k] == out[i];
                    assert(vars[k].0 != vars[vars.len() - 1].0);
                } else {
                    assert(head_out[i] == out[i]);
                    assert(head_out[j] == out[j]);
                }
            }
        }
        assert forall|other: Seq<char>| other != name implies #[trigger] value_of(out, other)
            == value_of(vars, other) by {
            if keep(last) {
                assert(out.drop_last() =~= head_out);
            }
        }
        if !has_name(vars, name) {
            assert(vars[vars.len() - 1].0 != name);
            assert forall|i: int| 0 <= i < head.len() implies head[i].0 != name by {
                assert(vars[i].0 != name);
            }
            assert(!has_name(head, name));
            assert(out =~= vars);
        }
    }
}

/// After a variable is set, it is there once, with its value, and comes last;
/// the others are as they were.
pub proof fn with_variable_sets(vars: Seq<Variable>, name: Seq<char>, value: Seq<char>)
    ensures
        with_variable(vars, name, value).len() > 0,
        with_variable(vars, name, value).last() == (name, value),
        value_of(with_variable(vars, name, value), name) == Some(value),
        forall|other: Seq<char>|
            other != name ==> #[trigger] value_of(with_variable(vars, name, value), other)
                == value_of(vars, other),
        forall|v: Variable| #[trigger]
            with_variable(vars, name, value).contains(v) <==> (v == (name, value) || (
            vars.contains(v) && v.0 != name)),
        distinct_names(vars) ==> distinct_names(with_variable(vars, name, value)),
{
    without_name_keeps_others(vars, name);
    let rest = without_name(vars, name);
    let out = with_variable(vars, name, value);
    assert(out.drop_last() =~= rest);
    assert forall|other: Seq<char>| other != name implies #[trigger] value_of(out, other)
        == value_of(vars, other) by {
        assert(value_of(out, other) == value_of(rest, other));
    }
    assert forall|v: Variable| #[trigger] out.contains(v) <==> (v == (name, value) || (
    vars.contains(v) && v.0 != name)) by {
        if out.contains(v) {
            let i = choose|i: int| 0 <= i < out.len() && out[i] == v;
            if i < rest.len() {
                assert(rest[i] == v);
                assert(rest.contains(v));
            }
        }
        if v == (name, value) {
            assert(out[out.len() - 1] == v);
        }
        if vars.contains(v) && v.0 != name {
            assert(rest.contains(v));
            let i = choose|i: int| 0 <= i < rest.len() && rest[i] == v;
            assert(out[i] == v);
        }
    }
    if distinct_names(vars) {
        assert forall|i: int, j: int| 0 <= i < j < out.len() implies out[i].0 != out[j].0 by {
            assert(rest[i] == out[i]);
            if j == rest.len() {
                assert(rest[i].0 == name ==> has_name(rest, name));
            } else {
                assert(rest[j] == out[j]);
            }
        }
    }
}

/// After several variables are set, each name has the value that was set
/// last, else the value it had; nothing is there that was not there or set;
/// and names that occurred once still do.
pub proof fn with_all_sets(vars: Seq<Variable>, more: Seq<Variable>)
    ensures
        forall|name: Seq<char>| #[trigger]
            value_of(with_all(vars, more), name) == (match value_of(more, name) {
                Some(value) => Some(value),
                None => value_of(vars, name),
            }),
        forall|v: Variable| #[trigger]
            with_all(vars, more).contains(v) ==> vars.contains(v) || more.contains(v),
        distinct_names(vars) ==> distinct_names(with_all(vars, more)),
    decreases more.len(),
{
    if more.len() > 0 {
        let head = more.drop_last();
        let last = more.last();
        with_all_sets(vars, head);
        with_variable_sets(with_all(vars, head), last.0, last.1);
        let out = with_all(vars, more);
        assert forall|v: Variable| #[trigger] out.contains(v) implies vars.contains(v)
            || more.contains(v) by {
            if v == last {
                assert(more[more.len() - 1] == v);
            } else {
                assert(with_all(vars, head).contains(v));
                if head.contains(v) {
                    let k = choose|k: int| 0 <= k < head.len() && head[k] == v;
                    assert(more[k] == v);
                }
            }
        }
    }
}

/// Adds a variable to the end of a list.
pub fn push_variable(list: &mut Vec<(String, String)>, name: &str, value: &str)
    ensures
        final(list).deep_view() == old(list).deep_view().push((name@, value@)),
{
    let ghost before = list.deep_view();
    list.push((String::from_str(name), String::from_str(value)));
    assert(list.deep_view() =~= before.push((name@, value@)));
}

/// An ordered set of environment variables. No name occurs twice; a name that
/// is set again moves to the end with its new value.
#[derive(Debug)]
pub struct Variables {
    entries: Vec<(String, String)>,
}

impl View for Variables {
    type V = Seq<Variable>;

    closed spec fn view(&self) -> Seq<Variable> {
        self.entries.deep_view()
    }
}

impl DeepView for Variables {
    type V = Seq<Variable>;

    open spec fn deep_view(&self) -> Seq<Variable> {
        self@
    }
}

impl Variables {
    #[verifier::type_invariant]
    closed spec fn names_once(&self) -> bool {
        distinct_names(self.entries.deep_view())
    }

    /// No variables.
    pub fn new() -> (r: Self)
        ensures
            r@ == Seq::<Variable>::empty(),
    {
        let r = Variables { entries: Vec::new() };
        assert(r.entries.deep_view() =~= Seq::<Variable>::empty());
        r
    }

    /// The number of variables. No name occurs twice among them.
    pub fn len(&self) -> (r: usize)
        ensures
            r == self@.len(),
            distinct_names(self@),
    {
        proof {
            use_type_invariant(self);
        }
        self.entries.len()
    }

    /// The name of the variable at place `i`.
    pub fn name(&self, i: usize) -> (r: &str)
        requires
            i < self@.len(),
        ensures
            r@ == self@[i as int].0,
    {
        self.entries[i].0.as_str()
    }

    /// The value of the variable at place `i`.
    pub fn value(&self, i: usize) -> (r: &str)
        requires
            i < self@.len(),
        ensures
            r@ == self@[i as int].1,
    {
        self.entries[i].1.as_str()
    }

    /// The value of the variable of that name, if there is one.
    pub fn get(&self, name: &str) -> (r: Option<String>)
        ensures
            r.deep_view() == value_of(self@, name@),
    {
        let mut i: usize = self.entries.len();
        assert(self@.take(i as int) =~= self@);
        while i > 0
            invariant
                i <= self.entries.len(),
                value_of(self@, name@) == value_of(self@.take(i as int), name@),
            decreases i,
        {
            assert(self@.take(i as int).drop_last() =~= self@.take(i - 1));
            if same_text(self.entries[i - 1].0.as_str(), name) {
                return Some(self.entries[i - 1].1.clone());
            }
            i -= 1;
        }
        None
    }

    /// The variables as pairs of name and value, in their order. No name
    /// occurs twice among them.
    pub fn entries(&self) -> (r: Vec<(String, String)>)
        ensures
            r.deep_view() == self@,
            distinct_names(r.deep_view()),
    {
        proof {
            use_type_invariant(self);
        }
        let mut out: Vec<(String, String)> = Vec::new();
        let mut i: usize = 0;
        while i < self.entries.len()
            invariant
                i <= self.entries.len(),
                out.deep_view() == self@.take(i as int),
            decreases self.entries.len() - i,
        {
            let ghost before = out.deep_view();
            out.push((self.entries[i].0.clone(), self.entries[i].1.clone()));
            assert(out.deep_view() =~= before.push(self@[i as int]));
            assert(self@.take(i + 1) =~= self@.take(i as int).push(self@[i as int]));
            i += 1;
        }
        assert(self@.take(i as int) =~= self@);
        out
    }

    /// Sets a variable: it comes last, and an earlier one of the same name is
    /// gone.
    pub fn insert(&mut self, name: &str, value: &str)
        ensures
            final(self)@ == with_variable(old(self)@, name@, value@),
            distinct_names(final(self)@),
    {
        proof {
            use_type_invariant(&*self);
            with_variable_sets(self@, name@, value@);
        }
        let ghost before = self@;
        let mut kept: Vec<(String, String)> = Vec::new();
        let mut i: usize = 0;
        while i < self.entries.len()
            invariant
                i <= self.entries.len(),
                self@ == before,
                kept.deep_view() == without_name(before.take(i as int), name@),
            decreases self.entries.len() - i,
        {
            proof {
                reveal(Seq::filter);
                assert(before.take(i + 1).drop_last() =~= before.take(i as int));
            }
            let ghost kept_before = kept.deep_view();
            if !same_text(self.entries[i].0.as_str(), name) {
                kept.push((self.entries[i].0.clone(), self.entries[i].1.clone()));
                assert(kept.deep_view() =~= kept_before.push(before[i as int]));
            }
            i += 1;
        }
        assert(before.take(i as int) =~= before);
        let ghost kept_before = kept.deep_view();
        kept.push((String::from_str(name), String::from_str(value)));
        assert(kept.deep_view() =~= kept_before.push((name@, value@)));
        self.entries = kept;
    }
}

impl Clone for Variables {
    fn clone(&self) -> (r: Self)
        ensures
            r@ == self@,
    {
        Variables { entries: self.entries() }
    }
}

} // verus!
