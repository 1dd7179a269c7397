//! Reading conditions.
//!
//! A condition compares two operands, as in `github.ref == 'main'`, and
//! conditions are chained with `&&` and `||`. An operand is a run of
//! letters, digits and the characters `_`, `.`, `'` and `/`.

use vstd::prelude::*;

verus! {

/// A comparison operator.
#[derive(Debug, Clone, Copy, PartialEq, Eq, Structural)]
pub enum Operator {
    /// `==`
    Eq,
    /// `!=`
    Ne,
    /// `<`
    Lt,
    /// `>`
    Gt,
    /// `<=`
    Le,
    /// `>=`
    Ge,
}

/// The comparison of two operands.
#[derive(Debug, PartialEq)]
pub struct Condition<'a> {
    pub left: &'a str,
    pub operator: Operator,
    pub right: &'a str,
}

/// An operator that chains conditions.
#[derive(Debug, Clone, Copy, PartialEq, Eq, Structural)]
pub enum LogicalOperator {
    /// `&&`
    And,
    /// `||`
    Or,
}

/// One condition, or two chained ones.
#[derive(Debug, PartialEq)]
pub enum ComplexCondition<'a> {
    Single(Condition<'a>),
    Compound(Box<ComplexCondition<'a>>, LogicalOperator, Box<ComplexCondition<'a>>),
}

/// A text that is no condition.
#[derive(Debug, Clone, Copy, PartialEq, Eq, Structural)]
pub struct ParseError {}

/// The content of a [`Condition`].
pub struct ConditionView {
    pub left: Seq<char>,
    pub operator: Operator,
    pub right: Seq<char>,
}

/// The content of a [`ComplexCondition`].
pub enum ConditionTree {
    Single(ConditionView),
    Compound(Box<ConditionTree>, LogicalOperator, Box<ConditionTree>),
}

impl<'a> View for Condition<'a> {
    type V = ConditionView;

    open spec fn view(&self) -> ConditionView {
        ConditionView { left: self.left@, operator: self.operator, right: self.right@ }
    }
}

impl<'a> ComplexCondition<'a> {
    /// The content of the condition.
    pub open spec fn tree(&self) -> ConditionTree
        decreases self,
    {
        match self {
            ComplexCondition::Single(c) => ConditionTree::Single(c@),
            ComplexCondition::Compound(left, op, right) => ConditionTree::Compound(
                Box::new(left.tree()),
                *op,
                Box::new(right.tree()),
            ),
        }
    }
}

impl<'a> View for ComplexCondition<'a> {
    type V = ConditionTree;

    open spec fn view(&self) -> ConditionTree {
        self.tree()
    }
}

/// Whether a character is a letter or a number, as Unicode has it.
pub uninterp spec fn alphanumeric(c: char) -> bool;

/// `char::is_alphanumeric`: whether the character is a letter or a number.
#[verifier::external_body]
fn is_alphanumeric(c: char) -> (r: bool)
    ensures
        r == alphanumeric(c),
{
    c.is_alphanumeric()
}

/// The kinds of characters that the grammar knows.
#[derive(Debug, Clone, Copy, PartialEq, Eq, Structural)]
pub enum Class {
    /// A space or a tab.
    Blank,
    /// A space, a tab, a carriage return or a line feed.
    Space,
    /// A character of an operand.
    Operand,
}

impl Class {
    /// Whether `c` is of this kind.
    pub open spec fn holds(self, c: char) -> bool {
        match self {
            Class::Blank => c == ' ' || c == '\t',
            Class::Space => c == ' ' || c == '\t' || c == '\r' || c == '\n',
            Class::Operand => alphanumeric(c) || c == '_' || c == '.' || c == '\'' || c == '/',
        }
    }

    fn has(self, c: char) -> (r: bool)
        ensures
            r == self.holds(c),
    {
        match self {
            Class::Blank => c == ' ' || c == '\t',
            Class::Space => c == ' ' || c == '\t' || c == '\r' || c == '\n',
            Class::Operand => is_alphanumeric(c) || c == '_' || c == '.' || c == '\'' || c == '/',
        }
    }
}

/// The end of the run of characters of kind `class` that starts at `i`.
pub open spec fn run_end(s: Seq<char>, i: int, class: Class) -> int
    decreases s.len() - i,
{
    if 0 <= i < s.len() && class.holds(s[i]) {
        run_end(s, i + 1, class)
    } else {
        i
    }
}

/// Whether `a` stands at `i` and `b` directly after it.
pub open spec fn two_at(s: Seq<char>, i: int, a: char, b: char) -> bool {
    0 <= i && i + 1 < s.len() && s[i] == a && s[i + 1] == b
}

/// The comparison operator at `i` and where it ends; the operators of two
/// characters come first.
pub open spec fn operator_at(s: Seq<char>, i: int) -> Option<(Operator, int)> {
    if two_at(s, i, '=', '=') {
        Some((Operator::Eq, i + 2))
    } else if two_at(s, i, '!', '=') {
        Some((Operator::Ne, i + 2))
    } else if two_at(s, i, '<', '=') {
        Some((Operator::Le, i + 2))
    } else if two_at(s, i, '>', '=') {
        Some((Operator::Ge, i + 2))
    } else if 0 <= i < s.len() && s[i] == '<' {
        Some((Operator::Lt, i + 1))
    } else if 0 <= i < s.len() && s[i] == '>' {
        Some((Operator::Gt, i + 1))
    } else {
        None
    }
}

/// The chaining operator at `i` and where it ends.
pub open spec fn logical_at(s: Seq<char>, i: int) -> Option<(LogicalOperator, int)> {
    if two_at(s, i, '&', '&') {
        Some((LogicalOperator::And, i + 2))
    } else if two_at(s, i, '|', '|') {
        Some((LogicalOperator::Or, i + 2))
    } else {
        None
    }
}

/// The condition that starts at `i` and where it ends: an operand, an
/// operator and an operand, with optional blanks between them; before the
/// operator line breaks may stand too.
pub open spec fn condition_at(s: Seq<char>, i: int) -> Option<(ConditionView, int)> {
    let a = run_end(s, i, Class::Operand);
    if a == i {
        None
    } else {
        let c = run_end(s, run_end(s, a, Class::Blank), Class::Space);
        match operator_at(s, c) {
            None => None,
            Some((op, d)) => {
                let e = run_end(s, d, Class::Blank);
                let f = run_end(s, e, Class::Operand);
                if f == e {
                    None
                } else {
                    Some(
                        (
                            ConditionView {
                                left: s.subrange(i, a),
                                operator: op,
                                right: s.subrange(e, f),
                            },
                            f,
                        ),
                    )
                }
            },
        }
    }
}

/// Where the right side of a chain starts, given that the condition before
/// it ends at `j`: after blanks, the chaining operator and blanks again.
pub open spec fn chain_at(s: Seq<char>, j: int) -> Option<(LogicalOperator, int)> {
    match logical_at(s, run_end(s, run_end(s, j, Class::Blank), Class::Space)) {
        None => None,
        Some((op, m)) => Some((op, run_end(s, m, Class::Blank))),
    }
}

/// The chain of conditions that starts at `i` and where it ends.
///
/// A chain is one condition, or a condition, a chaining operator and a
/// chain. Where a chaining operator follows a condition, a chain must
/// follow the operator.
pub open spec fn if_condition_at(s: Seq<char>, i: int) -> Option<(ConditionTree, int)>
    decreases s.len() - i,
    when 0 <= i <= s.len()
    via if_condition_decreases
{
    match condition_at(s, i) {
        None => None,
        Some((cond, j)) => match chain_at(s, j) {
            None => Some((ConditionTree::Single(cond), j)),
            Some((op, n)) => match if_condition_at(s, n) {
                None => None,
                Some((right, end)) => Some(
                    (
                        ConditionTree::Compound(
                            Box::new(ConditionTree::Single(cond)),
                            op,
                            Box::new(right),
                        ),
                        end,
                    ),
                ),
            },
        },
    }
}

#[via_fn]
proof fn if_condition_decreases(s: Seq<char>, i: int) {
    match condition_at(s, i) {
        None => {},
        Some((cond, j)) => {
            condition_bounds(s, i);
            match chain_at(s, j) {
                None => {},
                Some((op, n)) => {
                    chain_bounds(s, j);
                },
            }
        },
    }
}

/// A run ends at or after its start and within the text; it holds
/// characters of its kind only, and is not followed by one.
pub proof fn run_bounds(s: Seq<char>, i: int, class: Class)
    requires
        0 <= i <= s.len(),
    ensures
        i <= run_end(s, i, class) <= s.len(),
        forall|k: int| i <= k < run_end(s, i, class) ==> class.holds(#[trigger] s[k]),
        run_end(s, i, class) < s.len() ==> !class.holds(s[run_end(s, i, class)]),
    decreases s.len() - i,
{
    if i < s.len() && class.holds(s[i]) {
        run_bounds(s, i + 1, class);
    }
}

/// A condition ends after its start and within the text.
pub proof fn condition_bounds(s: Seq<char>, i: int)
    requires
        0 <= i <= s.len(),
    ensures
        condition_at(s, i) matches Some((c, end)) ==> i < end <= s.len(),
{
    run_bounds(s, i, Class::Operand);
    let a = run_end(s, i, Class::Operand);
    run_bounds(s, a, Class::Blank);
    let b = run_end(s, a, Class::Blank);
    run_bounds(s, b, Class::Space);
    let c = run_end(s, b, Class::Space);
    match operator_at(s, c) {
        None => {},
        Some((op, d)) => {
            run_bounds(s, d, Class::Blank);
            run_bounds(s, run_end(s, d, Class::Blank), Class::Operand);
        },
    }
}

/// The right side of a chain starts at or after the end of the condition
/// before it, and within the text.
pub proof fn chain_bounds(s: Seq<char>, j: int)
    requires
        0 <= j <= s.len(),
    ensures
        chain_at(s, j) matches Some((op, n)) ==> j <= n <= s.len(),
{
    run_bounds(s, j, Class::Blank);
    let b = run_end(s, j, Class::Blank);
    run_bounds(s, b, Class::Space);
    let c = run_end(s, b, Class::Space);
    match logical_at(s, c) {
        None => {},
        Some((op, m)) => {
            run_bounds(s, m, Class::Blank);
        },
    }
}

/// A chain ends after its start and within the text.
pub proof fn if_condition_bounds(s: Seq<char>, i: int)
    requires
        0 <= i <= s.len(),
    ensures
        if_condition_at(s, i) matches Some((t, end)) ==> i < end <= s.len(),
    decreases s.len() - i,
{
    condition_bounds(s, i);
    match condition_at(s, i) {
        None => {},
        Some((cond, j)) => {
            chain_bounds(s, j);
            match chain_at(s, j) {
                None => {},
                Some((op, n)) => {
                    if_condition_bounds(s, n);
                },
            }
        },
    }
}

fn to_chars(input: &str) -> (r: Vec<char>)
    ensures
        r@ == input@,
{
    let n = input.unicode_len();
    let mut out: Vec<char> = Vec::new();
    let mut i: usize = 0;
    while i < n
        invariant
            i <= n,
            n == input@.len(),
            out@ == input@.take(i as int),
        decreases n - i,
    {
        out.push(input.get_char(i));
        assert(out@ =~= input@.take(i + 1));
        i = i + 1;
    }
    assert(input@.take(n as int) =~= input@);
    out
}

fn skip(chars: &Vec<char>, start: usize, class: Class) -> (r: usize)
    requires
        start <= chars.len(),
    ensures
        r == run_end(chars@, start as int, class),
        start <= r <= chars.len(),
{
    let mut j = start;
    while j < chars.len() && class.has(chars[j])
        invariant
            start <= j <= chars.len(),
            run_end(chars@, start as int, class) == run_end(chars@, j as int, class),
        decreases chars.len() - j,
    {
        j = j + 1;
    }
    j
}

fn two(chars: &Vec<char>, i: usize, a: char, b: char) -> (r: bool)
    requires
        i <= chars.len(),
    ensures
        r == two_at(chars@, i as int, a, b),
{
    i < chars.len() && chars.len() - i >= 2 && chars[i] == a && chars[i + 1] == b
}

fn operator(chars: &Vec<char>, i: usize) -> (r: Option<(Operator, usize)>)
    requires
        i <= chars.len(),
    ensures
        r is Some <==> operator_at(chars@, i as int) is Some,
        r matches Some((op, end)) ==> operator_at(chars@, i as int) == Some((op, end as int)),
{
    if two(chars, i, '=', '=') {
        Some((Operator::Eq, i + 2))
    } else if two(chars, i, '!', '=') {
        Some((Operator::Ne, i + 2))
    } else if two(chars, i, '<', '=') {
        Some((Operator::Le, i + 2))
    } else if two(chars, i, '>', '=') {
        Some((Operator::Ge, i + 2))
    } else if i < chars.len() && chars[i] == '<' {
        Some((Operator::Lt, i + 1))
    } else if i < chars.len() && chars[i] == '>' {
        Some((Operator::Gt, i + 1))
    } else {
        None
    }
}

fn logical(chars: &Vec<char>, i: usize) -> (r: Option<(LogicalOperator, usize)>)
    requires
        i <= chars.len(),
    ensures
        r is Some <==> logical_at(chars@, i as int) is Some,
        r matches Some((op, end)) ==> logical_at(chars@, i as int) == Some((op, end as int)),
{
    if two(chars, i, '&', '&') {
        Some((LogicalOperator::And, i + 2))
    } else if two(chars, i, '|', '|') {
        Some((LogicalOperator::Or, i + 2))
    } else {
        None
    }
}

fn condition_from<'a>(input: &'a str, chars: &Vec<char>, i: usize) -> (r: Option<
    (Condition<'a>, usize),
>)
    requires
        chars@ == input@,
        i <= chars.len(),
    ensures
        r is Some <==> condition_at(input@, i as int) is Some,
        r matches Some((c, end)) ==> condition_at(input@, i as int) == Some((c@, end as int)),
{
    let a = skip(chars, i, Class::Operand);
    if a == i {
        return None;
    }
    let b = skip(chars, a, Class::Blank);
    let c = skip(chars, b, Class::Space);
    match operator(chars, c) {
        None => None,
        Some((op, d)) => {
            let e = skip(chars, d, Class::Blank);
            let f = skip(chars, e, Class::Operand);
            if f == e {
                None
            } else {
                let left = input.substring_char(i, a);
                let right = input.substring_char(e, f);
                Some((Condition { left, operator: op, right }, f))
            }
        },
    }
}

fn if_condition_from<'a>(input: &'a str, chars: &Vec<char>, i: usize) -> (r: Option<
    (ComplexCondition<'a>, usize),
>)
    requires
        chars@ == input@,
        i <= chars.len(),
    ensures
        r is Some <==> if_condition_at(input@, i as int) is Some,
        r matches Some((t, end)) ==> if_condition_at(input@, i as int) == Some((t@, end as int)),
    decreases chars.len() - i,
{
    proof {
        condition_bounds(input@, i as int);
    }
    match condition_from(input, chars, i) {
        None => None,
        Some((cond, j)) => {
            proof {
                chain_bounds(input@, j as int);
            }
            let b = skip(chars, j, Class::Blank);
            let c = skip(chars, b, Class::Space);
            match logical(chars, c) {
                None => Some((ComplexCondition::Single(cond), j)),
                Some((op, m)) => {
                    let n = skip(chars, m, Class::Blank);
                    match if_condition_from(input, chars, n) {
                        None => None,
                        Some((right, end)) => {
                            let ghost single = ComplexCondition::Single(cond).tree();
                            let ghost tail = right.tree();
                            let chain = ComplexCondition::Compound(
                                Box::new(ComplexCondition::Single(cond)),
                                op,
                                Box::new(right),
                            );
                            assert(single == ConditionTree::Single(cond@));
                            assert(chain.tree() == ConditionTree::Compound(
                                Box::new(single),
                                op,
                                Box::new(tail),
                            ));
                            Some((chain, end))
                        },
                    }
                },
            }
        },
    }
}

/// Reads one condition at the start of `input`; returns what follows the
/// condition, and the condition.
pub fn parse_condition<'a>(input: &'a str) -> (r: Result<(&'a str, Condition<'a>), ParseError>)
    ensures
        r is Ok <==> condition_at(input@, 0) is Some,
        r matches Ok((rest, c)) ==> condition_at(input@, 0) == Some(
            (c@, input@.len() - rest@.len()),
        ) && rest@ == input@.skip(input@.len() - rest@.len()),
{
    let chars = to_chars(input);
    proof {
        condition_bounds(input@, 0);
    }
    match condition_from(input, &chars, 0) {
        None => Err(ParseError {  }),
        Some((c, end)) => {
            let rest = input.substring_char(end, chars.len());
            assert(rest@ =~= input@.skip(end as int));
            Ok((rest, c))
        },
    }
}

/// Reads a chain of conditions at the start of `input`; returns what
/// follows the chain, and the chain.
pub fn parse_if_condition<'a>(input: &'a str) -> (r: Result<
    (&'a str, ComplexCondition<'a>),
    ParseError,
>)
    ensures
        r is Ok <==> if_condition_at(input@, 0) is Some,
        r matches Ok((rest, t)) ==> if_condition_at(input@, 0) == Some(
            (t@, input@.len() - rest@.len()),
        ) && rest@ == input@.skip(input@.len() - rest@.len()),
{
    let chars = to_chars(input);
    proof {
        if_condition_bounds(input@, 0);
    }
    match if_condition_from(input, &chars, 0) {
        None => Err(ParseError {  }),
        Some((t, end)) => {
            let rest = input.substring_char(end, chars.len());
            assert(rest@ =~= input@.skip(end as int));
            Ok((rest, t))
        },
    }
}

} // verus!
