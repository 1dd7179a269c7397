use gh_workflow::mustache::parse_condition;
use gh_workflow::mustache::parse_if_condition;
use gh_workflow::mustache::ComplexCondition;
use gh_workflow::mustache::Condition;
use gh_workflow::mustache::LogicalOperator;
use gh_workflow::mustache::Operator;
use gh_workflow::mustache::ParseError;

#[test]
fn parse_simple_condition() {
    let input = "github.event_name == 'push'";
    let expected = Condition {
        left: "github.event_name",
        operator: Operator::Eq,
        right: "'push'",
    };
    assert_eq!(parse_condition(input).unwrap().1, expected);
}

#[test]
fn parse_complex_condition_with_and_or() {
    let input = "github.event_name == 'push' && github.ref == 'refs/heads/main' ";
    let expected = ComplexCondition::Compound(
        Box::from(ComplexCondition::Single(Condition {
            left: "github.event_name",
            operator: Operator::Eq,
            right: "'push'",
        })),
        LogicalOperator::And,
        Box::new(ComplexCondition::Single(Condition {
            left: "github.ref",
            operator: Operator::Eq,
            right: "'refs/heads/main'",
        })),
    );

    assert_eq!(parse_if_condition(input).unwrap().1, expected);
}

#[test]
fn the_rest_of_the_text_is_handed_back() {
    let (rest, _) = parse_if_condition("a == b && c != d ) tail").unwrap();
    assert_eq!(rest, " ) tail");
    let (rest, cond) = parse_condition("x<=y;").unwrap();
    assert_eq!(rest, ";");
    assert_eq!(cond, Condition { left: "x", operator: Operator::Le, right: "y" });
}

#[test]
fn every_operator_is_read() {
    let cases = [
        ("a==b", Operator::Eq),
        ("a!=b", Operator::Ne),
        ("a<b", Operator::Lt),
        ("a>b", Operator::Gt),
        ("a<=b", Operator::Le),
        ("a>=b", Operator::Ge),
    ];
    for (text, operator) in cases {
        let (rest, cond) = parse_condition(text).unwrap();
        assert_eq!(rest, "");
        assert_eq!(cond, Condition { left: "a", operator, right: "b" });
    }
}

#[test]
fn a_chain_nests_to_the_right() {
    let (rest, tree) = parse_if_condition("a == b || c == d && e == f").unwrap();
    assert_eq!(rest, "");
    let single = |left, right| {
        ComplexCondition::Single(Condition { left, operator: Operator::Eq, right })
    };
    let expected = ComplexCondition::Compound(
        Box::new(single("a", "b")),
        LogicalOperator::Or,
        Box::new(ComplexCondition::Compound(
            Box::new(single("c", "d")),
            LogicalOperator::And,
            Box::new(single("e", "f")),
        )),
    );
    assert_eq!(tree, expected);
}

#[test]
fn line_breaks_may_stand_before_an_operator_only() {
    assert!(parse_condition("a\n== b").is_ok());
    assert_eq!(parse_condition("a ==\nb"), Err(ParseError {}));
    let (rest, _) = parse_if_condition("a == b\n&& c == d").unwrap();
    assert_eq!(rest, "");
    assert_eq!(parse_if_condition("a == b &&\nc == d"), Err(ParseError {}));
}

#[test]
fn what_is_no_condition_is_an_error() {
    assert_eq!(parse_condition(""), Err(ParseError {}));
    assert_eq!(parse_condition(" a == b"), Err(ParseError {}));
    assert_eq!(parse_condition("a = b"), Err(ParseError {}));
    assert_eq!(parse_condition("a =="), Err(ParseError {}));
    assert_eq!(parse_if_condition("a == b &&"), Err(ParseError {}));
    assert_eq!(parse_if_condition("a == b && c"), Err(ParseError {}));
    let (rest, tree) = parse_if_condition("a == b & c == d").unwrap();
    assert_eq!(rest, " & c == d");
    assert_eq!(
        tree,
        ComplexCondition::Single(Condition { left: "a", operator: Operator::Eq, right: "b" })
    );
}

#[test]
fn letters_of_any_script_are_operand_characters() {
    let (rest, cond) = parse_condition("größe == 'ünï'").unwrap();
    assert_eq!(rest, "");
    assert_eq!(cond.left, "größe");
    assert_eq!(cond.right, "'ünï'");
}

#[test]
fn other_characters_end_an_operand() {
    let (rest, cond) = parse_condition("a-b == c").unwrap_or((
        "",
        Condition { left: "", operator: Operator::Eq, right: "" },
    ));
    assert_eq!((rest, cond.left), ("", ""));
    let (rest, cond) = parse_condition("a_1./'x' == b-c").unwrap();
    assert_eq!(cond.left, "a_1./'x'");
    assert_eq!(cond.right, "b");
    assert_eq!(rest, "-c");
}
