//! A visitor that writes an expression out with every node in parentheses.

use crate::expr::{Binary, Expr, ExprView, ExprVisitor, Grouping, LiteralExpr, Unary};
use vstd::prelude::*;
use vstd::string::StringExecFns;

verus! {

/// The text of an expression in which each grouping and each operator with
/// its operands stands in parentheses of its own, so that the text shows the
/// tree without rules of precedence.
pub open spec fn render(e: ExprView) -> Seq<char>
    decreases e,
{
    match e {
        ExprView::Binary { left, operator, right } => "("@ + render(*left) + " "@ + operator.lexeme
            + " "@ + render(*right) + ")"@,
        ExprView::Grouping { inner } => "(group "@ + render(*inner) + ")"@,
        ExprView::Literal { value } => match value {
            Some(v) => v.text(),
            None => "nil"@,
        },
        ExprView::Unary { operator, operand } => "("@ + operator.lexeme + " "@ + render(*operand)
            + ")"@,
    }
}

/// The visitor that yields the text of an expression.
pub struct AstPrinter;

impl ExprVisitor<String> for AstPrinter {
    open spec fn yields_for_binary(&self, expr: &Binary, r: String) -> bool {
        r@ == render(expr@)
    }

    open spec fn yields_for_grouping(&self, expr: &Grouping, r: String) -> bool {
        r@ == render(expr@)
    }

    open spec fn yields_for_literal(&self, expr: &LiteralExpr, r: String) -> bool {
        r@ == render(expr@)
    }

    open spec fn yields_for_unary(&self, expr: &Unary, r: String) -> bool {
        r@ == render(expr@)
    }

    fn visit_binary_expr(&self, expr: &Binary) -> (r: String) {
        let left = expr.left.accept(self);
        let right = expr.right.accept(self);
        let mut text = String::from_str("(");
        text.append(left.as_str());
        text.append(" ");
        text.append(expr.operator.lexeme().as_str());
        text.append(" ");
        text.append(right.as_str());
        text.append(")");
        text
    }

    fn visit_grouping_expr(&self, expr: &Grouping) -> (r: String) {
        let inner = expr.expression.accept(self);
        let mut text = String::from_str("(group ");
        text.append(inner.as_str());
        text.append(")");
        text
    }

    fn visit_literal_expr(&self, expr: &LiteralExpr) -> (r: String) {
        match &expr.value {
            Some(value) => value.to_string(),
            None => String::from_str("nil"),
        }
    }

    fn visit_unary_expr(&self, expr: &Unary) -> (r: String) {
        let operand = expr.right.accept(self);
        let mut text = String::from_str("(");
        text.append(expr.operator.lexeme().as_str());
        text.append(" ");
        text.append(operand.as_str());
        text.append(")");
        text
    }
}

impl AstPrinter {
    /// The text of `expr`.
    pub fn print(&self, expr: &Expr) -> (r: String)
        ensures
            r@ == render(expr@),
    {
        expr.accept(self)
    }
}

} // verus!
