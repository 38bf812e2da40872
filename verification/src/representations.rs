//! The expressions that a contract is made of.
use vstd::prelude::*;

use crate::costs::{cost_overflow_add, CostErrors};
use crate::names::{ClarityName, TraitId, TraitIdentifier};
use crate::values::{Val, Value};

verus! {

/// The model of what a reference to a trait stands for.
pub enum TraitDef {
    Defined(TraitId),
    Imported(TraitId),
}

/// The model of an expression.
pub struct Expr {
    pub id: u64,
    pub kind: ExprKind,
}

/// The model of what an expression is.
pub enum ExprKind {
    AtomValue(Val),
    Atom(Seq<char>),
    List(Seq<Expr>),
    LiteralValue(Val),
    Field(TraitId),
    TraitReference(Seq<char>, TraitDef),
}

/// What a reference to a trait stands for: a trait of the contract, or one that it imports.
pub enum TraitDefinition {
    Defined(TraitIdentifier),
    Imported(TraitIdentifier),
}

impl View for TraitDefinition {
    type V = TraitDef;

    open spec fn view(&self) -> TraitDef {
        match self {
            TraitDefinition::Defined(id) => TraitDef::Defined(id@),
            TraitDefinition::Imported(id) => TraitDef::Imported(id@),
        }
    }
}

pub enum SymbolicExpressionType {
    AtomValue(Value),
    Atom(ClarityName),
    List(Vec<SymbolicExpression>),
    LiteralValue(Value),
    Field(TraitIdentifier),
    TraitReference(ClarityName, TraitDefinition),
}

/// An expression, and the number by which it is known in its contract.
pub struct SymbolicExpression {
    pub expr: SymbolicExpressionType,
    pub id: u64,
}

impl SymbolicExpression {
    /// What an expression stands for.
    pub open spec fn model(&self) -> Expr
        decreases self,
    {
        Expr {
            id: self.id,
            kind: match self.expr {
                SymbolicExpressionType::AtomValue(value) => ExprKind::AtomValue(value@),
                SymbolicExpressionType::Atom(name) => ExprKind::Atom(name@),
                SymbolicExpressionType::List(items) => ExprKind::List(
                    Seq::new(
                        items@.len(),
                        |i: int|
                            if 0 <= i < items@.len() {
                                items@[i].model()
                            } else {
                                arbitrary()
                            },
                    ),
                ),
                SymbolicExpressionType::LiteralValue(value) => ExprKind::LiteralValue(value@),
                SymbolicExpressionType::Field(id) => ExprKind::Field(id@),
                SymbolicExpressionType::TraitReference(name, definition) => {
                    ExprKind::TraitReference(name@, definition@)
                },
            },
        }
    }
}

impl View for SymbolicExpression {
    type V = Expr;

    open spec fn view(&self) -> Expr {
        self.model()
    }
}

/// What a list of expressions stands for.
pub open spec fn exprs(items: Seq<SymbolicExpression>) -> Seq<Expr> {
    Seq::new(items.len(), |i: int| items[i]@)
}

/// The items of a list expression are the expressions that it holds.
pub proof fn list_items(expression: SymbolicExpression)
    requires
        expression.expr is List,
    ensures
        expression@.kind == ExprKind::List(exprs(expression.expr->List_0@)),
{
    assert(expression@.kind->List_0 =~= exprs(expression.expr->List_0@));
}

/// An expression in a list is smaller than the list.
pub(crate) proof fn subexpression_is_smaller(expression: SymbolicExpression, i: int)
    requires
        expression.expr is List,
        0 <= i < expression.expr->List_0@.len(),
    ensures
        decreases_to!(expression => expression.expr->List_0@[i]),
{
    let items = expression.expr->List_0;
    assert(decreases_to!(expression => expression.expr));
    assert(decreases_to!(expression.expr => items));
    assert(decreases_to!(items => items@));
    assert(decreases_to!(items@ => items@[i]));
}

/// The expressions in a list, together and each of them, are smaller than the list.
pub proof fn items_are_smaller(expression: Expr)
    requires
        expression.kind is List,
    ensures
        decreases_to!(expression => expression.kind->List_0),
        forall|i: int|
            0 <= i < expression.kind->List_0.len() ==> #[trigger] decreases_to!(
                expression => expression.kind->List_0[i]),
{
    let items = expression.kind->List_0;
    assert(decreases_to!(expression => expression.kind));
    assert(decreases_to!(expression.kind => items));
    assert forall|i: int| 0 <= i < items.len() implies #[trigger] decreases_to!(
        expression => items[i]) by {
        assert(decreases_to!(items => items[i]));
    }
}

/// The number of expressions in an expression, itself among them.
pub open spec fn node_count(expression: Expr) -> nat
    decreases expression, 0nat,
{
    match expression.kind {
        ExprKind::List(items) => 1 + node_counts(items, items.len()),
        _ => 1,
    }
}

/// The number of expressions in the first `count` of some expressions.
pub open spec fn node_counts(items: Seq<Expr>, count: nat) -> nat
    decreases items, count,
{
    if count == 0 || count > items.len() {
        0
    } else {
        node_counts(items, (count - 1) as nat) + node_count(items[count - 1])
    }
}

/// More expressions do not hold fewer.
pub proof fn node_counts_grow(items: Seq<Expr>, from: nat, to: nat)
    requires
        from <= to <= items.len(),
    ensures
        node_counts(items, from) <= node_counts(items, to),
    decreases to,
{
    if from < to {
        node_counts_grow(items, from, (to - 1) as nat);
    }
}

impl SymbolicExpression {
    /// The name that the expression is, where it is one.
    pub fn match_atom(&self) -> (name: Option<&ClarityName>)
        ensures
            match name {
                Some(atom) => self@.kind == ExprKind::Atom(atom@),
                None => !(self@.kind is Atom),
            },
    {
        match &self.expr {
            SymbolicExpressionType::Atom(name) => Some(name),
            _ => None,
        }
    }

    /// The expressions that a list holds, where the expression is one.
    pub fn match_list(&self) -> (items: Option<&Vec<SymbolicExpression>>)
        ensures
            match items {
                Some(list) => self@.kind == ExprKind::List(exprs(list@)) && self.expr
                    == SymbolicExpressionType::List(*list),
                None => !(self@.kind is List),
            },
    {
        match &self.expr {
            SymbolicExpressionType::List(items) => {
                proof {
                    list_items(*self);
                }
                Some(items)
            },
            _ => None,
        }
    }

    /// Adds the number of expressions in this one to `size`.
    pub fn count_nodes(&self, size: u64) -> (total: Result<u64, CostErrors>)
        ensures
            match total {
                Ok(sum) => sum == size + node_count(self@),
                Err(error) => size + node_count(self@) > u64::MAX && error
                    == CostErrors::CostOverflow,
            },
        decreases self,
    {
        let mut total: u64 = cost_overflow_add(size, 1)?;
        if let SymbolicExpressionType::List(items) = &self.expr {
            proof {
                list_items(*self);
            }
            let ghost models = exprs(items@);
            let mut i: usize = 0;
            while i < items.len()
                invariant
                    i <= items@.len(),
                    self.expr == SymbolicExpressionType::List(*items),
                    models == exprs(items@),
                    self@.kind == ExprKind::List(models),
                    total == size + 1 + node_counts(models, i as nat),
                decreases items@.len() - i,
            {
                proof {
                    subexpression_is_smaller(*self, i as int);
                    assert(models[i as int] == items@[i as int]@);
                    node_counts_grow(models, (i + 1) as nat, models.len());
                }
                total = items[i].count_nodes(total)?;
                i += 1;
            }
        }
        Ok(total)
    }
}

impl Clone for SymbolicExpression {
    fn clone(&self) -> (copy: Self)
        ensures
            copy@ == self@,
        decreases self,
    {
        match &self.expr {
            SymbolicExpressionType::AtomValue(value) => SymbolicExpression {
                expr: SymbolicExpressionType::AtomValue(value.clone()),
                id: self.id,
            },
            SymbolicExpressionType::Atom(name) => SymbolicExpression {
                expr: SymbolicExpressionType::Atom(name.clone()),
                id: self.id,
            },
            SymbolicExpressionType::List(items) => {
                let mut copied: Vec<SymbolicExpression> = Vec::new();
                let mut i: usize = 0;
                while i < items.len()
                    invariant
                        i <= items@.len(),
                        self.expr == SymbolicExpressionType::List(*items),
                        copied@.len() == i,
                        forall|j: int| 0 <= j < i ==> (#[trigger] copied@[j])@ == items@[j]@,
                    decreases items@.len() - i,
                {
                    proof {
                        subexpression_is_smaller(*self, i as int);
                    }
                    let item = items[i].clone();
                    copied.push(item);
                    i += 1;
                }
                let copy = SymbolicExpression {
                    expr: SymbolicExpressionType::List(copied),
                    id: self.id,
                };
                assert(copy@.kind->List_0 =~= self@.kind->List_0);
                copy
            },
            SymbolicExpressionType::LiteralValue(value) => SymbolicExpression {
                expr: SymbolicExpressionType::LiteralValue(value.clone()),
                id: self.id,
            },
            SymbolicExpressionType::Field(id) => SymbolicExpression {
                expr: SymbolicExpressionType::Field(id.clone()),
                id: self.id,
            },
            SymbolicExpressionType::TraitReference(name, definition) => SymbolicExpression {
                expr: SymbolicExpressionType::TraitReference(
                    name.clone(),
                    match definition {
                        TraitDefinition::Defined(id) => TraitDefinition::Defined(id.clone()),
                        TraitDefinition::Imported(id) => TraitDefinition::Imported(id.clone()),
                    },
                ),
                id: self.id,
            },
        }
    }
}

} // verus!
