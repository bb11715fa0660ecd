//! What a sequence of committed tokens is worth.
//!
//! The value is defined in two layers. A run without parentheses is worth the
//! sum of its products: every `*` and `/` is taken with its two neighbours
//! first, left to right, and the remaining `+` and `-` are then taken left to
//! right. A sequence with parentheses is reduced group by group, innermost
//! first and left to right, each group giving way to the number it is worth.
//!
//! Every sequence has a value or one of three errors; none is malformed. An
//! operator that lacks a number on one side is left out, and two values side
//! by side, with no operator between them, are multiplied: `( 3 ) 5` is worth
//! what `5 ( 3 )` is worth.
//!
//! Arithmetic is on 64-bit signed integers. Division rounds toward zero. A
//! result that does not fit is an overflow and a zero divisor is a division by
//! zero: both are reported, neither wraps.

use vstd::prelude::*;
use crate::types::{EvaluationError, Operator, Token};

verus! {

/// The quotient of `a` by `b`, rounded toward zero. Meaningful for `b != 0`.
pub open spec fn quotient(a: int, b: int) -> int {
    if a >= 0 && b > 0 {
        a / b
    } else if a < 0 && b > 0 {
        -((-a) / b)
    } else if a >= 0 && b < 0 {
        -(a / (-b))
    } else {
        (-a) / (-b)
    }
}

/// What `a op b` is over the integers.
pub open spec fn exact(op: Operator, a: int, b: int) -> int {
    match op {
        Operator::Add => a + b,
        Operator::Subtract => a - b,
        Operator::Multiply => a * b,
        Operator::Divide => quotient(a, b),
    }
}

/// What `a op b` is on 64-bit signed integers: division by zero is an error,
/// and so is any result out of range.
pub open spec fn apply(op: Operator, a: i64, b: i64) -> Result<i64, EvaluationError> {
    if op == Operator::Divide && b == 0 {
        Err(EvaluationError::DivisionByZero)
    } else if i64::MIN <= exact(op, a as int, b as int) <= i64::MAX {
        Ok(exact(op, a as int, b as int) as i64)
    } else {
        Err(EvaluationError::Overflow)
    }
}

/// How many of `ops` stand between two of `nums`: operator `k` joins number
/// `k` to number `k + 1`, and an operator with no number to its right joins
/// nothing.
pub open spec fn joins(nums: Seq<i64>, ops: Seq<Operator>) -> nat {
    if ops.len() < nums.len() {
        ops.len()
    } else {
        (nums.len() - 1) as nat
    }
}

/// The products of the run once its first `k` operators are taken in, left to
/// right: a `*` or `/` folds the next number into the last product, a `+` or
/// `-` opens a new product with it. The first failing operation decides.
pub open spec fn products(nums: Seq<i64>, ops: Seq<Operator>, k: nat) -> Result<
    Seq<i64>,
    EvaluationError,
>
    decreases k,
{
    if k == 0 {
        Ok(seq![nums[0]])
    } else {
        match products(nums, ops, (k - 1) as nat) {
            Err(e) => Err(e),
            Ok(done) => {
                if ops[k - 1].multiplicative() {
                    match apply(ops[k - 1], done.last(), nums[k as int]) {
                        Err(e) => Err(e),
                        Ok(v) => Ok(done.drop_last().push(v)),
                    }
                } else {
                    Ok(done.push(nums[k as int]))
                }
            },
        }
    }
}

/// The `+` and `-` among the first `k` operators, in order.
pub open spec fn signs(ops: Seq<Operator>, k: nat) -> Seq<Operator>
    decreases k,
{
    if k == 0 {
        Seq::empty()
    } else if ops[k - 1].multiplicative() {
        signs(ops, (k - 1) as nat)
    } else {
        signs(ops, (k - 1) as nat).push(ops[k - 1])
    }
}

/// The running total of `terms` once the first `k` of `signs` are taken in,
/// left to right, starting from the first term.
pub open spec fn total(terms: Seq<i64>, signs: Seq<Operator>, k: nat) -> Result<
    i64,
    EvaluationError,
>
    decreases k,
{
    if k == 0 {
        Ok(terms[0])
    } else {
        match total(terms, signs, (k - 1) as nat) {
            Err(e) => Err(e),
            Ok(sum) => apply(signs[k - 1], sum, terms[k as int]),
        }
    }
}

/// What the numbers `nums`, joined by the operators `ops`, are worth: all the
/// products first, then their sum. No numbers at all are worth zero.
pub open spec fn reduce_flat(nums: Seq<i64>, ops: Seq<Operator>) -> Result<i64, EvaluationError> {
    if nums.len() == 0 {
        Ok(0)
    } else {
        let k = joins(nums, ops);
        match products(nums, ops, k) {
            Err(e) => Err(e),
            Ok(terms) => total(terms, signs(ops, k), signs(ops, k).len()),
        }
    }
}

/// The numbers of a run without parentheses and the operators that join them.
pub struct FlatRun {
    /// The numbers, in order.
    pub numbers: Seq<i64>,
    /// Operator `k` joins number `k` to number `k + 1`.
    pub operators: Seq<Operator>,
    /// The operator seen since the last number, waiting for its right operand.
    pub waiting: Option<Operator>,
}

impl FlatRun {
    /// The run of no tokens.
    pub open spec fn empty() -> FlatRun {
        FlatRun { numbers: Seq::empty(), operators: Seq::empty(), waiting: None }
    }

    /// The run with one more token read.
    ///
    /// An operator before the first number has no left operand and is dropped.
    /// Of several operators in a row the last one counts. A number that follows
    /// a number directly is multiplied with it. Tokens that are neither numbers
    /// nor operators are passed over.
    pub open spec fn read(self, t: Token) -> FlatRun {
        match t {
            Token::Number(n) => {
                if self.numbers.len() == 0 {
                    FlatRun { numbers: seq![n], operators: Seq::empty(), waiting: None }
                } else {
                    FlatRun {
                        numbers: self.numbers.push(n),
                        operators: self.operators.push(
                            match self.waiting {
                                Some(op) => op,
                                None => Operator::Multiply,
                            },
                        ),
                        waiting: None,
                    }
                }
            },
            Token::Operator(op) => {
                if self.numbers.len() == 0 {
                    self
                } else {
                    FlatRun { waiting: Some(op), ..self }
                }
            },
            _ => self,
        }
    }

    /// One operator between each two neighbouring numbers.
    pub open spec fn well_shaped(self) -> bool {
        &&& self.numbers.len() == 0 ==> self.operators.len() == 0 && self.waiting is None
        &&& self.numbers.len() > 0 ==> self.operators.len() + 1 == self.numbers.len()
    }
}

/// The tokens `ts` read as a run without parentheses, left to right. An
/// operator still waiting at the end has no right operand and is dropped.
pub open spec fn flat_run(ts: Seq<Token>) -> FlatRun
    decreases ts.len(),
{
    if ts.len() == 0 {
        FlatRun::empty()
    } else {
        flat_run(ts.drop_last()).read(ts.last())
    }
}

/// What a run without parentheses is worth.
pub open spec fn flat_value(ts: Seq<Token>) -> Result<i64, EvaluationError> {
    reduce_flat(flat_run(ts).numbers, flat_run(ts).operators)
}

/// Whether any parenthesis, opening or closing, is left in `ts`.
pub open spec fn has_paren(ts: Seq<Token>) -> bool {
    exists|k: int| 0 <= k < ts.len() && (ts[k] == Token::LeftParen || ts[k] == Token::RightParen)
}

/// The index of the first closing parenthesis of `ts`; its length if there is
/// none.
pub open spec fn first_close(ts: Seq<Token>) -> int
    decreases ts.len(),
{
    if ts.len() == 0 || ts[0] == Token::RightParen {
        0
    } else {
        1 + first_close(ts.skip(1))
    }
}

/// The index of the last opening parenthesis before index `j` of `ts`; `-1` if
/// there is none.
pub open spec fn last_open_before(ts: Seq<Token>, j: int) -> int
    decreases j,
{
    if j <= 0 {
        -1
    } else if ts[j - 1] == Token::LeftParen {
        j - 1
    } else {
        last_open_before(ts, j - 1)
    }
}

/// `ts` with its first innermost group reduced: the group that the first
/// closing parenthesis ends and the last opening parenthesis before it begins
/// gives way to the number that the run between them is worth.
///
/// A closing parenthesis with nothing open before it, and an opening one that
/// is never closed, are mismatched.
pub open spec fn strip_innermost(ts: Seq<Token>) -> Result<Seq<Token>, EvaluationError> {
    let close = first_close(ts);
    let open = last_open_before(ts, close);
    if close >= ts.len() || open < 0 {
        Err(EvaluationError::MismatchedParentheses)
    } else {
        match flat_value(ts.subrange(open + 1, close)) {
            Err(e) => Err(e),
            Ok(v) => Ok(
                ts.subrange(0, open).push(Token::Number(v)) + ts.subrange(
                    close + 1,
                    ts.len() as int,
                ),
            ),
        }
    }
}

/// `ts` with every group reduced: the first innermost group gives way to its
/// number, again and again, until no parenthesis is left.
pub open spec fn strip_all(ts: Seq<Token>) -> Result<Seq<Token>, EvaluationError>
    decreases ts.len(),
    via strip_all_decreases
{
    if !has_paren(ts) {
        Ok(ts)
    } else {
        match strip_innermost(ts) {
            Err(e) => Err(e),
            Ok(rest) => strip_all(rest),
        }
    }
}

#[via_fn]
proof fn strip_all_decreases(ts: Seq<Token>) {
    if has_paren(ts) {
        if let Ok(rest) = strip_innermost(ts) {
            lemma_strip_shortens(ts);
        }
    }
}

/// What the token sequence `ts` is worth: its groups are reduced first, and
/// the flat run that remains is reduced last.
pub open spec fn value_of(ts: Seq<Token>) -> Result<i64, EvaluationError> {
    match strip_all(ts) {
        Err(e) => Err(e),
        Ok(flat) => flat_value(flat),
    }
}

/// Reducing a group takes at least its two parentheses away.
pub proof fn lemma_strip_shortens(ts: Seq<Token>)
    ensures
        strip_innermost(ts) matches Ok(rest) ==> rest.len() < ts.len(),
{
    lemma_first_close(ts);
    lemma_last_open_before(ts, first_close(ts));
}

/// `first_close` is the least index that holds a closing parenthesis.
pub proof fn lemma_first_close(ts: Seq<Token>)
    ensures
        0 <= first_close(ts) <= ts.len(),
        first_close(ts) < ts.len() ==> ts[first_close(ts)] == Token::RightParen,
        forall|k: int| 0 <= k < first_close(ts) ==> ts[k] != Token::RightParen,
    decreases ts.len(),
{
    if ts.len() == 0 || ts[0] == Token::RightParen {
    } else {
        let rest = ts.skip(1);
        lemma_first_close(rest);
        assert forall|k: int| 0 <= k < first_close(ts) implies ts[k] != Token::RightParen by {
            if k > 0 {
                assert(ts[k] == rest[k - 1]);
            }
        }
    }
}

/// `last_open_before` is the greatest index below `j` that holds an opening
/// parenthesis.
pub proof fn lemma_last_open_before(ts: Seq<Token>, j: int)
    requires
        0 <= j <= ts.len(),
    ensures
        -1 <= last_open_before(ts, j) < j,
        last_open_before(ts, j) >= 0 ==> ts[last_open_before(ts, j)] == Token::LeftParen,
        forall|k: int| last_open_before(ts, j) < k < j ==> ts[k] != Token::LeftParen,
    decreases j,
{
    if j <= 0 {
    } else if ts[j - 1] == Token::LeftParen {
    } else {
        lemma_last_open_before(ts, j - 1);
    }
}

/// The position of a closing parenthesis with none before it is `first_close`.
pub proof fn lemma_first_close_is(ts: Seq<Token>, j: int)
    requires
        0 <= j <= ts.len(),
        j < ts.len() ==> ts[j] == Token::RightParen,
        forall|k: int| 0 <= k < j ==> ts[k] != Token::RightParen,
    ensures
        first_close(ts) == j,
{
    lemma_first_close(ts);
    let f = first_close(ts);
    if f < j {
    } else if f > j {
    }
}

/// The position of an opening parenthesis with none between it and `j` is
/// `last_open_before`; `-1` stands for none below `j` at all.
pub proof fn lemma_last_open_before_is(ts: Seq<Token>, j: int, i: int)
    requires
        0 <= j <= ts.len(),
        -1 <= i < j,
        i >= 0 ==> ts[i] == Token::LeftParen,
        forall|k: int| i < k < j ==> ts[k] != Token::LeftParen,
    ensures
        last_open_before(ts, j) == i,
{
    lemma_last_open_before(ts, j);
    let l = last_open_before(ts, j);
    if l > i {
    } else if l < i {
    }
}

/// Once a product fails, the failure stands however many operators follow.
pub proof fn lemma_products_failure_stands(nums: Seq<i64>, ops: Seq<Operator>, i: nat, k: nat)
    requires
        i <= k,
        products(nums, ops, i) is Err,
    ensures
        products(nums, ops, k) == products(nums, ops, i),
    decreases k,
{
    if i < k {
        lemma_products_failure_stands(nums, ops, i, (k - 1) as nat);
    }
}

/// Once the running total fails, the failure stands however many signs follow.
pub proof fn lemma_total_failure_stands(terms: Seq<i64>, signs: Seq<Operator>, i: nat, k: nat)
    requires
        i <= k,
        total(terms, signs, i) is Err,
    ensures
        total(terms, signs, k) == total(terms, signs, i),
    decreases k,
{
    if i < k {
        lemma_total_failure_stands(terms, signs, i, (k - 1) as nat);
    }
}

/// A run that was read has one operator between each two neighbouring numbers.
pub proof fn lemma_flat_run_shape(ts: Seq<Token>)
    ensures
        flat_run(ts).well_shaped(),
    decreases ts.len(),
{
    if ts.len() > 0 {
        lemma_flat_run_shape(ts.drop_last());
    }
}

/// Zero divided by anything is zero.
pub proof fn lemma_zero_quotient(b: int)
    requires
        b != 0,
    ensures
        quotient(0, b) == 0,
{
    if b > 0 {
        assert(0int / b == 0) by (nonlinear_arith)
            requires
                b > 0,
        ;
    } else {
        assert(0int / (-b) == 0) by (nonlinear_arith)
            requires
                b < 0,
        ;
    }
}

/// `a op b` on 64-bit signed integers.
pub fn compute(op: Operator, a: i64, b: i64) -> (r: Result<i64, EvaluationError>)
    ensures
        r == apply(op, a, b),
{
    let checked = match op {
        Operator::Add => a.checked_add(b),
        Operator::Subtract => a.checked_sub(b),
        Operator::Multiply => a.checked_mul(b),
        Operator::Divide => {
            if b == 0 {
                return Err(EvaluationError::DivisionByZero);
            }
            proof {
                lemma_zero_quotient(b as int);
            }
            a.checked_div(b)
        },
    };
    match checked {
        Some(v) => Ok(v),
        None => Err(EvaluationError::Overflow),
    }
}

/// The index of the first closing parenthesis of `tokens`; their number if
/// there is none.
pub fn find_first_close(tokens: &Vec<Token>) -> (close: usize)
    ensures
        close == first_close(tokens@),
        close <= tokens.len(),
{
    let mut i: usize = 0;
    while i < tokens.len()
        invariant
            i <= tokens.len(),
            forall|k: int| 0 <= k < i ==> tokens@[k] != Token::RightParen,
        decreases tokens.len() - i,
    {
        if tokens[i] == Token::RightParen {
            proof {
                lemma_first_close_is(tokens@, i as int);
            }
            return i;
        }
        i += 1;
    }
    proof {
        lemma_first_close_is(tokens@, i as int);
    }
    i
}

/// The index of the last opening parenthesis before index `before` of
/// `tokens`, if there is one.
pub fn find_last_open(tokens: &Vec<Token>, before: usize) -> (open: Option<usize>)
    requires
        before <= tokens.len(),
    ensures
        match open {
            Some(i) => i == last_open_before(tokens@, before as int),
            None => last_open_before(tokens@, before as int) == -1,
        },
{
    let mut i: usize = before;
    while i > 0
        invariant
            i <= before <= tokens.len(),
            forall|k: int| i <= k < before ==> tokens@[k] != Token::LeftParen,
        decreases i,
    {
        i -= 1;
        if tokens[i] == Token::LeftParen {
            proof {
                lemma_last_open_before_is(tokens@, before as int, i as int);
            }
            return Some(i);
        }
    }
    proof {
        lemma_last_open_before_is(tokens@, before as int, -1);
    }
    None
}

/// Reads `tokens[from..to]` as a run without parentheses: its numbers, and the
/// operators that join them.
pub fn read_run(tokens: &Vec<Token>, from: usize, to: usize) -> (run: (Vec<i64>, Vec<Operator>))
    requires
        from <= to <= tokens.len(),
    ensures
        run.0@ == flat_run(tokens@.subrange(from as int, to as int)).numbers,
        run.1@ == flat_run(tokens@.subrange(from as int, to as int)).operators,
{
    let mut numbers: Vec<i64> = Vec::new();
    let mut operators: Vec<Operator> = Vec::new();
    let mut waiting: Option<Operator> = None;
    let mut i: usize = from;
    while i < to
        invariant
            from <= i <= to <= tokens.len(),
            flat_run(tokens@.subrange(from as int, i as int)).numbers == numbers@,
            flat_run(tokens@.subrange(from as int, i as int)).operators == operators@,
            flat_run(tokens@.subrange(from as int, i as int)).waiting == waiting,
        decreases to - i,
    {
        proof {
            let read = tokens@.subrange(from as int, i + 1);
            assert(read.drop_last() =~= tokens@.subrange(from as int, i as int));
            lemma_flat_run_shape(read.drop_last());
        }
        match tokens[i] {
            Token::Number(n) => {
                if numbers.len() > 0 {
                    let op = match waiting {
                        Some(op) => op,
                        None => Operator::Multiply,
                    };
                    operators.push(op);
                }
                numbers.push(n);
                waiting = None;
            },
            Token::Operator(op) => {
                if numbers.len() > 0 {
                    waiting = Some(op);
                }
            },
            _ => {},
        }
        i += 1;
    }
    (numbers, operators)
}

/// Appends `tokens[from..to]` to `out`.
pub fn append_range(out: &mut Vec<Token>, tokens: &Vec<Token>, from: usize, to: usize)
    requires
        from <= to <= tokens.len(),
    ensures
        final(out)@ == old(out)@ + tokens@.subrange(from as int, to as int),
{
    let mut i: usize = from;
    while i < to
        invariant
            from <= i <= to <= tokens.len(),
            out@ == old(out)@ + tokens@.subrange(from as int, i as int),
        decreases to - i,
    {
        out.push(tokens[i]);
        assert(tokens@.subrange(from as int, i + 1) =~= tokens@.subrange(
            from as int,
            i as int,
        ).push(tokens@[i as int]));
        i += 1;
    }
}

} // verus!
