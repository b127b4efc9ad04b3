//! The names of the columns that expressions compute.
use itertools::Itertools;
use vstd::prelude::*;
use vstd::relations::{sorted_by, total_ordering};
use vstd::seq_lib::{group_to_multiset_ensures, lemma_sorted_unique};
use vstd::string::*;

use crate::expr::{refs_view, scalar_function_view, AggExpr, AggExprView, Expr, ExprRef, ExprView};
use crate::functions::{FunctionExpr, FunctionExprView, StructExpr};

verus! {

/// The name of an expression: its alias, or the column or literal at the head of its first
/// argument. A call without arguments has none, except where the function alone decides it.
pub open spec fn name_of(e: ExprView) -> Option<Seq<char>>
    decreases e,
{
    match e {
        ExprView::Alias(_, name) => Some(name),
        ExprView::Agg(agg) => agg_name_of(agg),
        ExprView::Cast(inner, _) => name_of(*inner),
        ExprView::Column(name) => Some(name),
        ExprView::Not(inner) => name_of(*inner),
        ExprView::IsNull(inner) => name_of(*inner),
        ExprView::NotNull(inner) => name_of(*inner),
        ExprView::FillNull(inner, _) => name_of(*inner),
        ExprView::IsIn(inner, _) => name_of(*inner),
        ExprView::Between(inner, _, _) => name_of(*inner),
        ExprView::Literal(_) => Some("literal"@),
        ExprView::Function { func, inputs } => match func {
            FunctionExprView::StructGet(name) => Some(name),
            _ => if inputs.len() == 0 {
                None
            } else {
                name_of(inputs[0])
            },
        },
        ExprView::ScalarFunction(func) => if func.udf.name == "to_struct"@ {
            Some("struct"@)
        } else if func.inputs.len() == 0 {
            None
        } else {
            name_of(func.inputs[0])
        },
        ExprView::BinaryOp { op: _, left, right: _ } => name_of(*left),
        ExprView::IfElse { if_true, if_false: _, predicate: _ } => name_of(*if_true),
    }
}

/// The name of an aggregation: that of what it aggregates.
pub open spec fn agg_name_of(agg: AggExprView) -> Option<Seq<char>>
    decreases agg,
{
    match agg {
        AggExprView::Count(e, _) => name_of(*e),
        AggExprView::Sum(e) => name_of(*e),
        AggExprView::ApproxPercentile { child, .. } => name_of(*child),
        AggExprView::ApproxCountDistinct(e) => name_of(*e),
        AggExprView::ApproxSketch(e, _) => name_of(*e),
        AggExprView::MergeSketch(e, _) => name_of(*e),
        AggExprView::Mean(e) => name_of(*e),
        AggExprView::Min(e) => name_of(*e),
        AggExprView::Max(e) => name_of(*e),
        AggExprView::AnyValue(e, _) => name_of(*e),
        AggExprView::List(e) => name_of(*e),
        AggExprView::Concat(e) => name_of(*e),
        AggExprView::MapGroups { func: _, inputs } => if inputs.len() == 0 {
            None
        } else {
            name_of(inputs[0])
        },
    }
}

/// The characters of an optional text.
pub open spec fn option_text(text: Option<&str>) -> Option<Seq<char>> {
    match text {
        Some(t) => Some(t@),
        None => None,
    }
}

impl AggExpr {
    /// The name of the aggregation; none where it has none.
    pub fn try_name(&self) -> (name: Option<&str>)
        ensures
            option_text(name) == agg_name_of(self@),
        decreases self,
    {
        match self {
            AggExpr::Count(e, _) => e.try_name(),
            AggExpr::Sum(e) => e.try_name(),
            AggExpr::ApproxPercentile(params) => params.child.try_name(),
            AggExpr::ApproxCountDistinct(e) => e.try_name(),
            AggExpr::ApproxSketch(e, _) => e.try_name(),
            AggExpr::MergeSketch(e, _) => e.try_name(),
            AggExpr::Mean(e) => e.try_name(),
            AggExpr::Min(e) => e.try_name(),
            AggExpr::Max(e) => e.try_name(),
            AggExpr::AnyValue(e, _) => e.try_name(),
            AggExpr::List(e) => e.try_name(),
            AggExpr::Concat(e) => e.try_name(),
            AggExpr::MapGroups { func: _, inputs } => {
                if inputs.len() == 0 {
                    None
                } else {
                    proof {
                        let all = self->MapGroups_inputs;
                        assert(decreases_to!(all => all@));
                        assert(decreases_to!(all@ => all@[0]));
                        assert(decreases_to!(*self => self->MapGroups_inputs));
                    }
                    inputs[0].try_name()
                }
            },
        }
    }

    /// The name of the aggregation.
    pub fn name(&self) -> (name: &str)
        requires
            agg_name_of(self@) is Some,
        ensures
            Some(name@) == agg_name_of(self@),
    {
        match self.try_name() {
            Some(name) => name,
            None => "",
        }
    }
}

impl Expr {
    /// The name of the expression; none where it has none.
    pub fn try_name(&self) -> (name: Option<&str>)
        ensures
            option_text(name) == name_of(self@),
        decreases self,
    {
        match self {
            Expr::Alias(_, name) => Some(&**name),
            Expr::Agg(agg) => agg.try_name(),
            Expr::Cast(inner, _) => inner.try_name(),
            Expr::Column(name) => Some(&**name),
            Expr::Not(inner) => inner.try_name(),
            Expr::IsNull(inner) => inner.try_name(),
            Expr::NotNull(inner) => inner.try_name(),
            Expr::FillNull(inner, _) => inner.try_name(),
            Expr::IsIn(inner, _) => inner.try_name(),
            Expr::Between(inner, _, _) => inner.try_name(),
            Expr::Literal(_) => Some("literal"),
            Expr::Function { func, inputs } => match func {
                FunctionExpr::Struct(StructExpr::Get(name)) => Some(name.as_str()),
                FunctionExpr::Sketch(_) | FunctionExpr::Other(_) => {
                    proof {
                        assert(self@ == ExprView::Function {
                            func: func@,
                            inputs: refs_view(inputs@),
                        });
                    }
                    if inputs.len() == 0 {
                        None
                    } else {
                        proof {
                            let all = self->Function_inputs;
                            assert(decreases_to!(all => all@));
                            assert(decreases_to!(all@ => all@[0]));
                            assert(decreases_to!(*self => self->Function_inputs));
                        }
                        inputs[0].try_name()
                    }
                },
            },
            Expr::ScalarFunction(func) => {
                proof {
                    assert(self@ == ExprView::ScalarFunction(scalar_function_view(*func)));
                }
                if *func.name() == *"to_struct" {
                    Some("struct")
                } else if func.inputs.len() == 0 {
                    None
                } else {
                    proof {
                        let all = self->ScalarFunction_0.inputs;
                        assert(decreases_to!(all => all@));
                        assert(decreases_to!(all@ => all@[0]));
                        assert(decreases_to!(self->ScalarFunction_0 => self->ScalarFunction_0.inputs));
                        assert(decreases_to!(*self => self->ScalarFunction_0));
                    }
                    func.inputs[0].try_name()
                }
            },
            Expr::BinaryOp { op: _, left, right: _ } => left.try_name(),
            Expr::IfElse { if_true, if_false: _, predicate: _ } => if_true.try_name(),
        }
    }

    /// The name of the expression.
    pub fn name(&self) -> (name: &str)
        requires
            name_of(self@) is Some,
        ensures
            Some(name@) == name_of(self@),
    {
        match self.try_name() {
            Some(name) => name,
            None => "",
        }
    }
}

/// Whether one text comes before another or is the same: the first character in which they
/// differ decides, and a text comes before every longer text that begins with it.
pub open spec fn text_le(a: Seq<char>, b: Seq<char>) -> bool
    decreases a.len(),
{
    if a.len() == 0 {
        true
    } else if b.len() == 0 {
        false
    } else if a[0] == b[0] {
        text_le(a.drop_first(), b.drop_first())
    } else {
        (a[0] as int) < (b[0] as int)
    }
}

/// The order of texts, as a relation.
pub open spec fn text_order() -> spec_fn(Seq<char>, Seq<char>) -> bool {
    |a: Seq<char>, b: Seq<char>| text_le(a, b)
}

/// The characters of each text of a list.
pub open spec fn strs_view(list: Seq<&str>) -> Seq<Seq<char>> {
    list.map_values(|s: &str| s@)
}

/// `itertools::Itertools::sorted` on string slices: the same slices, each as often as before, in
/// ascending order.
#[verifier::external_body]
fn sorted<'a>(names: Vec<&'a str>) -> (ascending: Vec<&'a str>)
    ensures
        strs_view(ascending@).to_multiset() == strs_view(names@).to_multiset(),
        sorted_by(strs_view(ascending@), text_order()),
{
    names.into_iter().sorted().collect()
}

/// Whether every expression of a list has a name.
pub open spec fn all_named(list: Seq<ExprView>) -> bool {
    forall|i: int| 0 <= i < list.len() ==> name_of(#[trigger] list[i]) is Some
}

/// The names of a list of expressions.
pub open spec fn names_of(list: Seq<ExprView>) -> Seq<Seq<char>> {
    list.map_values(|e: ExprView| name_of(e)->0)
}

/// Whether two lists of columns have the same names, each as often in the one as in the other.
pub open spec fn same_names(a: Seq<ExprView>, b: Seq<ExprView>) -> bool {
    names_of(a).to_multiset() == names_of(b).to_multiset()
}

/// The names of the expressions, in the order of the list.
fn collect_names<'a>(list: &'a [ExprRef]) -> (names: Vec<&'a str>)
    requires
        all_named(refs_view(list@)),
    ensures
        strs_view(names@) == names_of(refs_view(list@)),
{
    let mut names: Vec<&'a str> = Vec::new();
    let mut i: usize = 0;
    while i < list.len()
        invariant
            i <= list.len(),
            names.len() == i,
            all_named(refs_view(list@)),
            forall|k: int|
                0 <= k < i ==> Some((#[trigger] names@[k])@) == name_of(refs_view(list@)[k]),
        decreases list.len() - i,
    {
        proof {
            assert(refs_view(list@)[i as int] == (*list@[i as int])@);
            assert(name_of(refs_view(list@)[i as int]) is Some);
        }
        names.push(list[i].name());
        i = i + 1;
    }
    proof {
        assert(strs_view(names@) =~= names_of(refs_view(list@)));
    }
    names
}

/// Whether two lists hold the same texts in the same order.
fn same_texts(a: &Vec<&str>, b: &Vec<&str>) -> (equal: bool)
    ensures
        equal == (strs_view(a@) == strs_view(b@)),
{
    if a.len() != b.len() {
        proof {
            assert(strs_view(a@).len() != strs_view(b@).len());
        }
        return false;
    }
    let mut i: usize = 0;
    while i < a.len()
        invariant
            a.len() == b.len(),
            i <= a.len(),
            forall|k: int| 0 <= k < i ==> (#[trigger] a@[k])@ == b@[k]@,
        decreases a.len() - i,
    {
        if *a[i] != *b[i] {
            proof {
                assert(strs_view(a@)[i as int] != strs_view(b@)[i as int]);
            }
            return false;
        }
        i = i + 1;
    }
    proof {
        assert(strs_view(a@) =~= strs_view(b@));
    }
    true
}

/// Whether one list of columns is a reordering of the other, by their names.
pub fn is_partition_compatible(a: &[ExprRef], b: &[ExprRef]) -> (compatible: bool)
    requires
        all_named(refs_view(a@)),
        all_named(refs_view(b@)),
    ensures
        compatible == same_names(refs_view(a@), refs_view(b@)),
{
    let a_names = sorted(collect_names(a));
    let b_names = sorted(collect_names(b));
    proof {
        if same_names(refs_view(a@), refs_view(b@)) {
            lemma_text_order_total();
            lemma_sorted_unique(strs_view(a_names@), strs_view(b_names@), text_order());
        }
    }
    same_texts(&a_names, &b_names)
}

/// The order of texts is total.
proof fn lemma_text_order_total()
    ensures
        total_ordering(text_order()),
{
    let leq = text_order();
    assert forall|x: Seq<char>| #[trigger] leq(x, x) by {
        lemma_text_le_reflexive(x);
    }
    assert forall|x: Seq<char>, y: Seq<char>| #[trigger] leq(x, y) && #[trigger] leq(y, x) implies x
        == y by {
        lemma_text_le_antisymmetric(x, y);
    }
    assert forall|x: Seq<char>, y: Seq<char>, z: Seq<char>| #[trigger]
        leq(x, y) && #[trigger] leq(y, z) implies leq(x, z) by {
        lemma_text_le_transitive(x, y, z);
    }
    assert forall|x: Seq<char>, y: Seq<char>| #[trigger] leq(x, y) || #[trigger] leq(y, x) by {
        lemma_text_le_connected(x, y);
    }
}

proof fn lemma_text_le_reflexive(x: Seq<char>)
    ensures
        text_le(x, x),
    decreases x.len(),
{
    if x.len() > 0 {
        lemma_text_le_reflexive(x.drop_first());
    }
}

proof fn lemma_text_le_antisymmetric(x: Seq<char>, y: Seq<char>)
    requires
        text_le(x, y),
        text_le(y, x),
    ensures
        x == y,
    decreases x.len(),
{
    if x.len() > 0 && y.len() > 0 {
        assert(x[0] == y[0]);
        lemma_text_le_antisymmetric(x.drop_first(), y.drop_first());
        assert(x =~= seq![x[0]] + x.drop_first());
        assert(y =~= seq![y[0]] + y.drop_first());
    } else {
        assert(x =~= y);
    }
}

proof fn lemma_text_le_transitive(x: Seq<char>, y: Seq<char>, z: Seq<char>)
    requires
        text_le(x, y),
        text_le(y, z),
    ensures
        text_le(x, z),
    decreases x.len(),
{
    if x.len() > 0 && y.len() > 0 && z.len() > 0 {
        if x[0] == y[0] && y[0] == z[0] {
            lemma_text_le_transitive(x.drop_first(), y.drop_first(), z.drop_first());
        }
    }
}

proof fn lemma_text_le_connected(x: Seq<char>, y: Seq<char>)
    ensures
        text_le(x, y) || text_le(y, x),
    decreases x.len(),
{
    if x.len() > 0 && y.len() > 0 && x[0] == y[0] {
        lemma_text_le_connected(x.drop_first(), y.drop_first());
    }
}

/// Lists that hold the same expressions, in whatever order, have the same names.
proof fn lemma_reordering_keeps_names(a: Seq<ExprView>, b: Seq<ExprView>)
    requires
        a.to_multiset() == b.to_multiset(),
    ensures
        names_of(a).to_multiset() == names_of(b).to_multiset(),
    decreases a.len(),
{
    broadcast use vstd::multiset::group_multiset_axioms;
    broadcast use group_to_multiset_ensures;

    if a.len() == 0 {
        a.to_multiset_ensures();
        b.to_multiset_ensures();
        assert(names_of(a) =~= names_of(b));
    } else {
        let e = a.last();
        assert(a.to_multiset().contains(e));
        assert(b.to_multiset().contains(e));
        let j = choose|j: int| 0 <= j < b.len() && b[j] == e;
        let n = a.len() - 1;
        assert(a.remove(n) =~= a.drop_last());
        assert(a.drop_last().to_multiset() =~= b.remove(j).to_multiset());
        lemma_reordering_keeps_names(a.drop_last(), b.remove(j));
        assert(names_of(a).remove(n) =~= names_of(a.drop_last()));
        assert(names_of(b).remove(j) =~= names_of(b.remove(j)));
        assert(names_of(a)[n] == names_of(b)[j]);
        assert(names_of(a).to_multiset() =~= names_of(a).remove(n).to_multiset().insert(
            names_of(a)[n],
        ));
        assert(names_of(b).to_multiset() =~= names_of(b).remove(j).to_multiset().insert(
            names_of(b)[j],
        ));
    }
}

/// Law: a list of columns is compatible with every reordering of itself.
pub proof fn law_reordering_is_compatible(a: Seq<ExprView>, b: Seq<ExprView>)
    requires
        a.to_multiset() == b.to_multiset(),
    ensures
        same_names(a, b),
{
    lemma_reordering_keeps_names(a, b);
}

/// Law: compatible lists have the same length.
pub proof fn law_compatible_lists_have_one_length(a: Seq<ExprView>, b: Seq<ExprView>)
    requires
        same_names(a, b),
    ensures
        a.len() == b.len(),
{
    broadcast use group_to_multiset_ensures;

    assert(names_of(a).to_multiset().len() == names_of(a).len());
    assert(names_of(b).to_multiset().len() == names_of(b).len());
}

/// Law: compatibility is an equivalence: a list is compatible with itself, and compatibility can
/// be turned round and chained.
pub proof fn law_compatibility_is_an_equivalence(
    a: Seq<ExprView>,
    b: Seq<ExprView>,
    c: Seq<ExprView>,
)
    ensures
        same_names(a, a),
        same_names(a, b) ==> same_names(b, a),
        same_names(a, b) && same_names(b, c) ==> same_names(a, c),
{
}

} // verus!
