//! The expression tree, and the protocol by which an operation visits it.
//!
//! The set of node variants is closed; the set of operations is open. An
//! operation is a visitor: one method for each variant. A node accepts a
//! visitor by handing itself to the method of its own variant.

use crate::token::{literal_view, Literal, LiteralView, Token, TokenView};
use crate::token_type::TokenType;
use vstd::prelude::*;

verus! {

/// An expression.
#[derive(Debug)]
pub enum Expr {
    Binary(Binary),
    Grouping(Grouping),
    Literal(LiteralExpr),
    Unary(Unary),
}

/// Two operands with an operator between them.
#[derive(Debug)]
pub struct Binary {
    pub left: Box<Expr>,
    pub operator: Token,
    pub right: Box<Expr>,
}

/// An expression in parentheses.
#[derive(Debug)]
pub struct Grouping {
    pub expression: Box<Expr>,
}

/// A constant; no value stands for `nil`.
#[derive(Debug)]
pub struct LiteralExpr {
    pub value: Option<Literal>,
}

/// An operator in front of its operand.
#[derive(Debug)]
pub struct Unary {
    pub operator: Token,
    pub right: Box<Expr>,
}

/// What an expression is: a tree of constants, groupings and operators.
pub ghost enum ExprView {
    Binary { left: Box<ExprView>, operator: TokenView, right: Box<ExprView> },
    Grouping { inner: Box<ExprView> },
    Literal { value: Option<LiteralView> },
    Unary { operator: TokenView, operand: Box<ExprView> },
}

/// The view of an expression.
pub open spec fn expr_view(e: Expr) -> ExprView
    decreases e,
{
    match e {
        Expr::Binary(b) => ExprView::Binary {
            left: Box::new(expr_view(*b.left)),
            operator: b.operator@,
            right: Box::new(expr_view(*b.right)),
        },
        Expr::Grouping(g) => ExprView::Grouping { inner: Box::new(expr_view(*g.expression)) },
        Expr::Literal(l) => ExprView::Literal { value: literal_view(l.value) },
        Expr::Unary(u) => ExprView::Unary {
            operator: u.operator@,
            operand: Box::new(expr_view(*u.right)),
        },
    }
}

impl View for Expr {
    type V = ExprView;

    open spec fn view(&self) -> ExprView {
        expr_view(*self)
    }
}

impl View for Binary {
    type V = ExprView;

    open spec fn view(&self) -> ExprView {
        expr_view(Expr::Binary(*self))
    }
}

impl View for Grouping {
    type V = ExprView;

    open spec fn view(&self) -> ExprView {
        expr_view(Expr::Grouping(*self))
    }
}

impl View for LiteralExpr {
    type V = ExprView;

    open spec fn view(&self) -> ExprView {
        expr_view(Expr::Literal(*self))
    }
}

impl View for Unary {
    type V = ExprView;

    open spec fn view(&self) -> ExprView {
        expr_view(Expr::Unary(*self))
    }
}

/// Whether a token of category `kind` can be the operator of an expression:
/// it is a punctuation mark or an operator, no literal and no reserved word.
pub open spec fn operator_kind(kind: TokenType) -> bool {
    match kind {
        TokenType::LeftParen
        | TokenType::RightParen
        | TokenType::LeftBrace
        | TokenType::RightBrace
        | TokenType::Comma
        | TokenType::Dot
        | TokenType::Minus
        | TokenType::Plus
        | TokenType::Semicolon
        | TokenType::Slash
        | TokenType::Star
        | TokenType::Bang
        | TokenType::BangEqual
        | TokenType::Equal
        | TokenType::EqualEqual
        | TokenType::Greater
        | TokenType::GreaterEqual
        | TokenType::Less
        | TokenType::LessEqual => true,
        _ => false,
    }
}

/// Whether every operator in the tree is a token that can be one. The
/// constructors do not ask for this: it is for whoever builds a tree to see
/// to it.
pub open spec fn well_formed(e: ExprView) -> bool
    decreases e,
{
    match e {
        ExprView::Binary { left, operator, right } => operator_kind(operator.token_type)
            && well_formed(*left) && well_formed(*right),
        ExprView::Grouping { inner } => well_formed(*inner),
        ExprView::Literal { value } => true,
        ExprView::Unary { operator, operand } => operator_kind(operator.token_type) && well_formed(
            *operand,
        ),
    }
}

/// An operation on expressions that yields an `R`: one method for each
/// variant. Each method comes with the relation between a node and what the
/// method may return for it; `accept` promises that relation of its result.
/// A visitor that states no relation of its own promises nothing.
pub trait ExprVisitor<R> {
    /// Whether `visit_binary_expr` may return `r` for `expr`.
    open spec fn yields_for_binary(&self, expr: &Binary, r: R) -> bool {
        true
    }

    /// Whether `visit_grouping_expr` may return `r` for `expr`.
    open spec fn yields_for_grouping(&self, expr: &Grouping, r: R) -> bool {
        true
    }

    /// Whether `visit_literal_expr` may return `r` for `expr`.
    open spec fn yields_for_literal(&self, expr: &LiteralExpr, r: R) -> bool {
        true
    }

    /// Whether `visit_unary_expr` may return `r` for `expr`.
    open spec fn yields_for_unary(&self, expr: &Unary, r: R) -> bool {
        true
    }

    fn visit_binary_expr(&self, expr: &Binary) -> (r: R)
        ensures
            self.yields_for_binary(expr, r),
    ;

    fn visit_grouping_expr(&self, expr: &Grouping) -> (r: R)
        ensures
            self.yields_for_grouping(expr, r),
    ;

    fn visit_literal_expr(&self, expr: &LiteralExpr) -> (r: R)
        ensures
            self.yields_for_literal(expr, r),
    ;

    fn visit_unary_expr(&self, expr: &Unary) -> (r: R)
        ensures
            self.yields_for_unary(expr, r),
    ;
}

impl Expr {
    /// A copy of the tree.
    fn duplicate(&self) -> (r: Expr)
        ensures
            r == *self,
        decreases *self,
    {
        match self {
            Expr::Binary(b) => Expr::Binary(
                Binary {
                    left: Box::new(b.left.duplicate()),
                    operator: b.operator.clone(),
                    right: Box::new(b.right.duplicate()),
                },
            ),
            Expr::Grouping(g) => Expr::Grouping(
                Grouping { expression: Box::new(g.expression.duplicate()) },
            ),
            Expr::Literal(l) => Expr::Literal(
                LiteralExpr {
                    value: match &l.value {
                        Some(v) => Some(v.clone()),
                        None => None,
                    },
                },
            ),
            Expr::Unary(u) => Expr::Unary(
                Unary { operator: u.operator.clone(), right: Box::new(u.right.duplicate()) },
            ),
        }
    }

    /// Hands the node to the method of `visitor` for its variant, and
    /// returns what that method returns.
    pub fn accept<R>(&self, visitor: &dyn ExprVisitor<R>) -> (r: R)
        ensures
            match *self {
                Expr::Binary(binary) => visitor.yields_for_binary(&binary, r),
                Expr::Grouping(grouping) => visitor.yields_for_grouping(&grouping, r),
                Expr::Literal(literal) => visitor.yields_for_literal(&literal, r),
                Expr::Unary(unary) => visitor.yields_for_unary(&unary, r),
            },
    {
        match self {
            Expr::Binary(binary) => visitor.visit_binary_expr(binary),
            Expr::Grouping(grouping) => visitor.visit_grouping_expr(grouping),
            Expr::Literal(literal) => visitor.visit_literal_expr(literal),
            Expr::Unary(unary) => visitor.visit_unary_expr(unary),
        }
    }
}

impl Clone for Expr {
    fn clone(&self) -> (r: Self)
        ensures
            r == *self,
    {
        self.duplicate()
    }
}

impl Clone for Binary {
    fn clone(&self) -> (r: Self)
        ensures
            r == *self,
    {
        Binary {
            left: Box::new(self.left.duplicate()),
            operator: self.operator.clone(),
            right: Box::new(self.right.duplicate()),
        }
    }
}

impl Clone for Grouping {
    fn clone(&self) -> (r: Self)
        ensures
            r == *self,
    {
        Grouping { expression: Box::new(self.expression.duplicate()) }
    }
}

impl Clone for LiteralExpr {
    fn clone(&self) -> (r: Self)
        ensures
            r == *self,
    {
        LiteralExpr {
            value: match &self.value {
                Some(v) => Some(v.clone()),
                None => None,
            },
        }
    }
}

impl Clone for Unary {
    fn clone(&self) -> (r: Self)
        ensures
            r == *self,
    {
        Unary { operator: self.operator.clone(), right: Box::new(self.right.duplicate()) }
    }
}

impl Binary {
    /// The expression `left operator right`.
    pub fn new(left: Expr, operator: Token, right: Expr) -> (e: Expr)
        ensures
            e == Expr::Binary(Binary { left: Box::new(left), operator, right: Box::new(right) }),
            e@ == (ExprView::Binary {
                left: Box::new(left@),
                operator: operator@,
                right: Box::new(right@),
            }),
            well_formed(e@) <==> operator_kind(operator@.token_type) && well_formed(left@)
                && well_formed(right@),
    {
        Expr::Binary(Binary { left: Box::new(left), operator, right: Box::new(right) })
    }
}

impl Grouping {
    /// The expression `( expression )`.
    pub fn new(expression: Expr) -> (e: Expr)
        ensures
            e == Expr::Grouping(Grouping { expression: Box::new(expression) }),
            e@ == (ExprView::Grouping { inner: Box::new(expression@) }),
            well_formed(e@) <==> well_formed(expression@),
    {
        Expr::Grouping(Grouping { expression: Box::new(expression) })
    }
}

impl LiteralExpr {
    /// The constant `value`, or `nil` where there is none.
    pub fn new(value: Option<Literal>) -> (e: Expr)
        ensures
            e == Expr::Literal(LiteralExpr { value }),
            e@ == (ExprView::Literal { value: literal_view(value) }),
            well_formed(e@),
    {
        Expr::Literal(LiteralExpr { value })
    }
}

impl Unary {
    /// The expression `operator right`.
    pub fn new(operator: Token, right: Expr) -> (e: Expr)
        ensures
            e == Expr::Unary(Unary { operator, right: Box::new(right) }),
            e@ == (ExprView::Unary { operator: operator@, operand: Box::new(right@) }),
            well_formed(e@) <==> operator_kind(operator@.token_type) && well_formed(right@),
    {
        Expr::Unary(Unary { operator, right: Box::new(right) })
    }
}

} // verus!
