use lox_syntax::ast_print::AstPrinter;
use lox_syntax::expr::{Binary, Expr, ExprVisitor, Grouping, LiteralExpr, Unary};
use lox_syntax::number::Number;
use lox_syntax::token::{Literal, Token};
use lox_syntax::token_type::TokenType;

/// The number literal of a floating value that a numeral can denote.
fn number(value: f64) -> Literal {
    Literal::Number(Number::parse(&format!("{}", value)).unwrap())
}

#[test]
fn test_trivial_expr() {
    let expr = Binary::new(
        LiteralExpr::new(Some(number(1.0))),
        Token::new(TokenType::Minus, "-".to_string(), None, 1),
        LiteralExpr::new(Some(number(1.0))),
    );

    let printer = AstPrinter;
    let result = expr.accept(&printer);
    assert_eq!(result, "(1 - 1)");
}

#[test]
fn test_complicated_expr() {
    let expr = Binary::new(
        Unary::new(
            Token::new(TokenType::Minus, "-".to_string(), None, 1),
            LiteralExpr::new(Some(number(123 as f64))),
        ),
        Token::new(TokenType::Star, "*".to_string(), None, 1),
        Grouping::new(LiteralExpr::new(Some(number(45.67)))),
    );

    let printer = AstPrinter;
    let result = expr.accept(&printer);
    assert_eq!(result, "((- 123) * (group 45.67))");
}

#[test]
fn nil_literal_prints_as_nil() {
    let expr = LiteralExpr::new(None);
    assert_eq!(expr.accept(&AstPrinter), "nil");
    assert_eq!(AstPrinter.print(&Grouping::new(LiteralExpr::new(None))), "(group nil)");
}

#[test]
fn string_literal_prints_without_quotes() {
    let expr = LiteralExpr::new(Some(Literal::String("a b".to_string())));
    assert_eq!(expr.accept(&AstPrinter), "a b");
}

#[test]
fn unary_prints_operator_then_operand() {
    let expr = Unary::new(
        Token::new(TokenType::Bang, "!".to_string(), None, 1),
        LiteralExpr::new(Some(Literal::String("x".to_string()))),
    );
    assert_eq!(AstPrinter.print(&expr), "(! x)");
}

#[test]
fn nested_binary_prints_every_node_in_parentheses() {
    let sum = Binary::new(
        LiteralExpr::new(Some(number(1.0))),
        Token::new(TokenType::Plus, "+".to_string(), None, 1),
        LiteralExpr::new(Some(number(2.0))),
    );
    let expr = Binary::new(
        sum,
        Token::new(TokenType::Star, "*".to_string(), None, 2),
        LiteralExpr::new(Some(number(3.5))),
    );
    assert_eq!(AstPrinter.print(&expr), "((1 + 2) * 3.5)");
}

#[test]
fn constructors_build_the_matching_variant() {
    let minus = Token::new(TokenType::Minus, "-".to_string(), None, 7);
    match Unary::new(minus.clone(), LiteralExpr::new(None)) {
        Expr::Unary(u) => {
            assert_eq!(u.operator.token_type, TokenType::Minus);
            assert_eq!(u.operator.lexeme, "-");
            assert_eq!(u.operator.line(), 7);
            assert!(matches!(*u.right, Expr::Literal(LiteralExpr { value: None })));
        }
        _ => panic!("not a unary node"),
    }
    match Binary::new(LiteralExpr::new(None), minus, Grouping::new(LiteralExpr::new(None))) {
        Expr::Binary(b) => {
            assert!(matches!(*b.left, Expr::Literal(_)));
            assert_eq!(b.operator.lexeme, "-");
            assert!(matches!(*b.right, Expr::Grouping(_)));
        }
        _ => panic!("not a binary node"),
    }
    assert!(matches!(Grouping::new(LiteralExpr::new(None)), Expr::Grouping(_)));
    assert!(matches!(LiteralExpr::new(None), Expr::Literal(_)));
}

#[test]
fn clone_keeps_the_tree() {
    let expr = Binary::new(
        Unary::new(
            Token::new(TokenType::Minus, "-".to_string(), None, 1),
            LiteralExpr::new(Some(number(123.0))),
        ),
        Token::new(TokenType::Star, "*".to_string(), None, 1),
        Grouping::new(LiteralExpr::new(Some(Literal::String("s".to_string())))),
    );
    let copy = expr.clone();
    assert_eq!(AstPrinter.print(&copy), "((- 123) * (group s))");
    assert_eq!(AstPrinter.print(&expr), AstPrinter.print(&copy));
}

/// A visitor of another result type: the depth of the tree.
struct Depth;

impl ExprVisitor<usize> for Depth {
    fn visit_binary_expr(&self, expr: &Binary) -> usize {
        1 + expr.left.accept(self).max(expr.right.accept(self))
    }

    fn visit_grouping_expr(&self, expr: &Grouping) -> usize {
        1 + expr.expression.accept(self)
    }

    fn visit_literal_expr(&self, _expr: &LiteralExpr) -> usize {
        1
    }

    fn visit_unary_expr(&self, expr: &Unary) -> usize {
        1 + expr.right.accept(self)
    }
}

#[test]
fn accept_dispatches_to_the_method_of_the_variant() {
    let expr = Binary::new(
        Unary::new(
            Token::new(TokenType::Minus, "-".to_string(), None, 1),
            Grouping::new(LiteralExpr::new(None)),
        ),
        Token::new(TokenType::Plus, "+".to_string(), None, 1),
        LiteralExpr::new(None),
    );
    assert_eq!(expr.accept(&Depth), 4);
    assert_eq!(LiteralExpr::new(None).accept(&Depth), 1);
}
