//! Laws of the evaluator, stated over its states and proved once for all of
//! them.

use vstd::prelude::*;
use crate::numeral::{digits_value, number_text};
use crate::reduction::{
    apply, flat_run, flat_value, lemma_first_close_is, lemma_last_open_before_is, products,
    signs, strip_all, total, value_of, FlatRun,
};
use crate::state::EvaluatorState;
use crate::types::{EvaluationError, Operator, Token};

verus! {

/// The tokens that typing the digits `ds` enters.
pub open spec fn digit_tokens(ds: Seq<i64>) -> Seq<Token> {
    Seq::new(ds.len(), |i: int| Token::Number(ds[i]))
}

/// `k` presses of `ClearLast`.
pub open spec fn clears(k: nat) -> Seq<Token> {
    Seq::new(k, |i: int| Token::ClearLast)
}

/// Whether every one of `ds` is a digit of `base`.
pub open spec fn digits_of_base(ds: Seq<i64>, base: int) -> bool {
    forall|i: int| 0 <= i < ds.len() ==> 0 <= #[trigger] ds[i] < base
}

/// Every token keeps an evaluator well formed.
pub proof fn lemma_step_keeps_wf(s: EvaluatorState, token: Token)
    requires
        s.wf(),
    ensures
        s.step(token).wf(),
        s.step(token).base == s.base,
{
    if token.valid_for_base(s.base) {
        match token {
            Token::Number(n) => {
                assert(s.pending_value * s.base >= 0) by (nonlinear_arith)
                    requires
                        s.pending_value >= 0,
                        s.base >= 0,
                ;
            },
            _ => {},
        }
    }
}

/// Every sequence of tokens keeps an evaluator well formed.
pub proof fn lemma_run_keeps_wf(s: EvaluatorState, entered: Seq<Token>)
    requires
        s.wf(),
    ensures
        s.run(entered).wf(),
        s.run(entered).base == s.base,
    decreases entered.len(),
{
    if entered.len() > 0 {
        lemma_run_keeps_wf(s, entered.drop_last());
        lemma_step_keeps_wf(s.run(entered.drop_last()), entered.last());
    }
}

/// Entering one sequence of tokens after another is entering the two in one.
pub proof fn lemma_run_in_two(s: EvaluatorState, first: Seq<Token>, second: Seq<Token>)
    ensures
        s.run(first + second) == s.run(first).run(second),
    decreases second.len(),
{
    if second.len() == 0 {
    } else {
        lemma_run_in_two(s, first, second.drop_last());
        assert((first + second).drop_last() =~= first + second.drop_last());
    }
}

/// The digits of a base spell a number that is not negative, and no smaller
/// than what any of their beginnings spell.
pub proof fn lemma_digits_value_grows(ds: Seq<i64>, base: int, k: int)
    requires
        base >= 1,
        digits_of_base(ds, base),
        0 <= k <= ds.len(),
    ensures
        0 <= digits_value(ds.take(k), base) <= digits_value(ds, base),
    decreases ds.len() - k,
{
    if k == ds.len() {
        assert(ds.take(k) =~= ds);
        lemma_digits_value_bounds(ds, base);
    } else {
        lemma_digits_value_grows(ds, base, k + 1);
        let longer = ds.take(k + 1);
        assert(longer.drop_last() =~= ds.take(k));
        lemma_digits_value_bounds(ds.take(k), base);
        assert(digits_value(ds.take(k), base) * base >= digits_value(ds.take(k), base))
            by (nonlinear_arith)
            requires
                digits_value(ds.take(k), base) >= 0,
                base >= 1,
        ;
    }
}

/// The digits of a base spell a number that is not negative.
pub proof fn lemma_digits_value_bounds(ds: Seq<i64>, base: int)
    requires
        base >= 1,
        digits_of_base(ds, base),
    ensures
        0 <= digits_value(ds, base),
    decreases ds.len(),
{
    if ds.len() > 0 {
        lemma_digits_value_bounds(ds.drop_last(), base);
        assert(digits_value(ds.drop_last(), base) * base >= 0) by (nonlinear_arith)
            requires
                digits_value(ds.drop_last(), base) >= 0,
                base >= 1,
        ;
    }
}

/// Digits typed one after the other spell their number: outside digit entry,
/// typing the digits `ds` leaves the number they spell in the evaluator's base
/// as the pending value, and changes nothing else but that digit entry is
/// active from the first digit on.
///
/// The law is stated for numbers up to the largest 64-bit signed integer: a
/// digit that would take the pending value past it is ignored.
pub proof fn lemma_digits_spell_their_number(s: EvaluatorState, ds: Seq<i64>)
    requires
        s.wf(),
        !s.digit_entry_active,
        digits_of_base(ds, s.base),
        digits_value(ds, s.base) <= i64::MAX,
    ensures
        s.run(digit_tokens(ds)) == (EvaluatorState {
            pending_value: digits_value(ds, s.base),
            digit_entry_active: ds.len() > 0,
            ..s
        }),
    decreases ds.len(),
{
    if ds.len() > 0 {
        let shorter = ds.drop_last();
        lemma_digits_value_grows(ds, s.base, ds.len() - 1);
        lemma_digits_spell_their_number(s, shorter);
        assert(digit_tokens(ds).drop_last() =~= digit_tokens(shorter));
    }
}

/// The state after the digits `ds` are typed and `ClearLast` is pressed `k`
/// times.
pub open spec fn typed_and_cleared(s: EvaluatorState, ds: Seq<i64>, k: nat) -> EvaluatorState {
    s.run(digit_tokens(ds) + clears(k))
}

/// `ClearLast` takes typed digits back one by one, the last one first: after
/// the digits `ds` and `k` presses of `ClearLast`, the pending value is the
/// number that the digits without their last `k` spell. Once all are taken
/// back the pending value is zero and digit entry is over. Where the first
/// digit is not zero, the committed tokens are the same as before the digits.
pub proof fn lemma_clear_last_takes_digits_back(s: EvaluatorState, ds: Seq<i64>, k: nat)
    requires
        s.wf(),
        !s.digit_entry_active,
        digits_of_base(ds, s.base),
        digits_value(ds, s.base) <= i64::MAX,
        k <= ds.len(),
    ensures
        typed_and_cleared(s, ds, k).pending_value == digits_value(
            ds.take(ds.len() - k),
            s.base,
        ),
        k >= 1 ==> typed_and_cleared(s, ds, k).digit_entry_active == (digits_value(
            ds.take(ds.len() - k),
            s.base,
        ) != 0),
        k == ds.len() ==> typed_and_cleared(s, ds, k).pending_value == 0 && !typed_and_cleared(
            s,
            ds,
            k,
        ).digit_entry_active,
        ds.len() > 0 && ds[0] != 0 ==> typed_and_cleared(s, ds, k).tokens == s.tokens,
        typed_and_cleared(s, ds, k).base == s.base,
    decreases k,
{
    let typed = s.run(digit_tokens(ds));
    lemma_digits_spell_their_number(s, ds);
    lemma_run_in_two(s, digit_tokens(ds), clears(k));
    if k == 0 {
        assert(ds.take(ds.len() - 0) =~= ds);
    } else {
        let j = (k - 1) as nat;
        lemma_clear_last_takes_digits_back(s, ds, j);
        lemma_run_in_two(s, digit_tokens(ds), clears(j));
        assert(clears(k).drop_last() =~= clears(j));
        let before = typed.run(clears(j));
        let kept = ds.take(ds.len() - j);
        let fewer = ds.take(ds.len() - k);
        assert(kept.drop_last() =~= fewer);
        lemma_digits_value_grows(ds, s.base, ds.len() - k);
        let high = digits_value(fewer, s.base);
        let low = kept.last() as int;
        lemma_quotient_of_digits(high, low, s.base);
        if !before.digit_entry_active {
            assert(high == 0) by (nonlinear_arith)
                requires
                    high * s.base + low == 0,
                    high >= 0,
                    low >= 0,
                    s.base >= 2,
            ;
            if ds[0] != 0 {
                lemma_leading_digit_counts(ds, s.base, ds.len() - j);
            }
        }
    }
}

/// Dropping the last digit divides by the base.
pub proof fn lemma_quotient_of_digits(high: int, low: int, base: int)
    requires
        base >= 2,
        0 <= low < base,
        high >= 0,
    ensures
        (high * base + low) / base == high,
{
    assert((high * base + low) / base == high) by (nonlinear_arith)
        requires
            base >= 2,
            0 <= low < base,
            high >= 0,
    ;
}

/// Digits that do not begin with zero spell a number that is not zero.
pub proof fn lemma_leading_digit_counts(ds: Seq<i64>, base: int, k: int)
    requires
        base >= 2,
        digits_of_base(ds, base),
        1 <= k <= ds.len(),
        ds[0] != 0,
    ensures
        digits_value(ds.take(k), base) >= 1,
    decreases k,
{
    let kept = ds.take(k);
    if k == 1 {
        assert(digits_value(kept.drop_last(), base) == 0);
    } else {
        lemma_leading_digit_counts(ds, base, k - 1);
        assert(kept.drop_last() =~= ds.take(k - 1));
        let high = digits_value(ds.take(k - 1), base);
        assert(high * base >= 1) by (nonlinear_arith)
            requires
                high >= 1,
                base >= 2,
        ;
    }
}

/// An evaluator that nothing was entered into is worth zero.
pub proof fn lemma_empty_is_worth_zero(base: int)
    ensures
        value_of(EvaluatorState::empty(base).expression()) == Ok::<i64, EvaluationError>(0),
{
}

/// Products come before sums: where `+` or `-` joins `a` to `b`, and `*` or
/// `/` joins `b` to `c`, the product of `b` and `c` is taken first and the sum
/// after it, and a product that fails decides.
pub proof fn lemma_product_before_sum(a: i64, sum: Operator, b: i64, product: Operator, c: i64)
    requires
        !sum.multiplicative(),
        product.multiplicative(),
    ensures
        flat_value(
            seq![
                Token::Number(a),
                Token::Operator(sum),
                Token::Number(b),
                Token::Operator(product),
                Token::Number(c),
            ],
        ) == (match apply(product, b, c) {
            Err(e) => Err(e),
            Ok(p) => apply(sum, a, p),
        }),
{
    let ts = seq![
        Token::Number(a),
        Token::Operator(sum),
        Token::Number(b),
        Token::Operator(product),
        Token::Number(c),
    ];
    let t4 = ts.drop_last();
    let t3 = t4.drop_last();
    let t2 = t3.drop_last();
    let t1 = t2.drop_last();
    assert(flat_run(t1.drop_last()) == FlatRun::empty());
    assert(flat_run(t1).numbers =~= seq![a]);
    assert(flat_run(t2).waiting == Some(sum));
    assert(flat_run(t3).operators =~= seq![sum]);
    assert(flat_run(t4).waiting == Some(product));
    let nums = seq![a, b, c];
    let ops = seq![sum, product];
    assert(flat_run(ts).numbers =~= nums);
    assert(flat_run(ts).operators =~= ops);
    assert(products(nums, ops, 0) == Ok::<Seq<i64>, EvaluationError>(seq![a]));
    assert(products(nums, ops, 1) == Ok::<Seq<i64>, EvaluationError>(seq![a].push(b)));
    assert(signs(ops, 0) =~= Seq::<Operator>::empty());
    assert(signs(ops, 1) =~= seq![sum]);
    match apply(product, b, c) {
        Err(e) => {
        },
        Ok(p) => {
            let terms = seq![a, p];
            assert(seq![a].push(b).drop_last().push(p) =~= terms);
            assert(total(terms, seq![sum], 0) == Ok::<i64, EvaluationError>(a));
        },
    }
}

/// Two numbers with an operator between them are worth what the operator
/// makes of them.
pub proof fn lemma_value_of_one_operation(a: i64, op: Operator, b: i64)
    ensures
        flat_value(seq![Token::Number(a), Token::Operator(op), Token::Number(b)]) == apply(
            op,
            a,
            b,
        ),
{
    let ts = seq![Token::Number(a), Token::Operator(op), Token::Number(b)];
    let t2 = ts.drop_last();
    let t1 = t2.drop_last();
    assert(flat_run(t1.drop_last()) == FlatRun::empty());
    assert(flat_run(t1).numbers =~= seq![a]);
    assert(flat_run(t2).waiting == Some(op));
    let nums = seq![a, b];
    let ops = seq![op];
    assert(flat_run(ts).numbers =~= nums);
    assert(products(nums, ops, 0) == Ok::<Seq<i64>, EvaluationError>(seq![a]));
    assert(signs(ops, 0) =~= Seq::<Operator>::empty());
    if op.multiplicative() {
        match apply(op, a, b) {
            Err(e) => {},
            Ok(p) => {
                assert(seq![a].drop_last().push(p) =~= seq![p]);
                assert(total(seq![p], Seq::<Operator>::empty(), 0) == Ok::<i64, EvaluationError>(
                    p,
                ));
            },
        }
    } else {
        assert(total(seq![a].push(b), seq![op], 0) == Ok::<i64, EvaluationError>(a));
    }
}

/// Parentheses come before everything: a group of two numbers is reduced
/// before the operator that follows it is applied, whatever the two operators
/// are, and a group that fails decides.
pub proof fn lemma_group_before_product(a: i64, inner: Operator, b: i64, outer: Operator, c: i64)
    ensures
        value_of(
            seq![
                Token::LeftParen,
                Token::Number(a),
                Token::Operator(inner),
                Token::Number(b),
                Token::RightParen,
                Token::Operator(outer),
                Token::Number(c),
            ],
        ) == (match apply(inner, a, b) {
            Err(e) => Err(e),
            Ok(g) => apply(outer, g, c),
        }),
{
    let ts = seq![
        Token::LeftParen,
        Token::Number(a),
        Token::Operator(inner),
        Token::Number(b),
        Token::RightParen,
        Token::Operator(outer),
        Token::Number(c),
    ];
    lemma_first_close_is(ts, 4);
    lemma_last_open_before_is(ts, 4, 0);
    assert(ts.subrange(1, 4) =~= seq![
        Token::Number(a),
        Token::Operator(inner),
        Token::Number(b),
    ]);
    lemma_value_of_one_operation(a, inner, b);
    match apply(inner, a, b) {
        Err(e) => {},
        Ok(g) => {
            let rest = seq![Token::Number(g), Token::Operator(outer), Token::Number(c)];
            assert(ts.subrange(0, 0).push(Token::Number(g)) + ts.subrange(5, 7) =~= rest);
            assert(strip_all(rest) == Ok::<Seq<Token>, EvaluationError>(rest));
            lemma_value_of_one_operation(g, outer, c);
        },
    }
}

/// An opening parenthesis that is never closed is mismatched: a sequence that
/// holds an opening parenthesis and no closing one has no value.
pub proof fn lemma_unclosed_is_mismatched(ts: Seq<Token>, open: int)
    requires
        0 <= open < ts.len(),
        ts[open] == Token::LeftParen,
        forall|k: int| 0 <= k < ts.len() ==> ts[k] != Token::RightParen,
    ensures
        value_of(ts) == Err::<i64, EvaluationError>(EvaluationError::MismatchedParentheses),
{
    lemma_first_close_is(ts, ts.len() as int);
}

/// A closing parenthesis with nothing open before it is mismatched: a
/// sequence whose first parenthesis is a closing one has no value.
pub proof fn lemma_unopened_is_mismatched(ts: Seq<Token>, close: int)
    requires
        0 <= close < ts.len(),
        ts[close] == Token::RightParen,
        forall|k: int| 0 <= k < close ==> ts[k] != Token::RightParen && ts[k] != Token::LeftParen,
    ensures
        value_of(ts) == Err::<i64, EvaluationError>(EvaluationError::MismatchedParentheses),
{
    lemma_first_close_is(ts, close);
    lemma_last_open_before_is(ts, close, -1);
}

/// An operator pressed right after an operator takes its place: the first of
/// the two leaves no trace.
pub proof fn lemma_operator_overwrites(s: EvaluatorState, first: Operator, second: Operator)
    ensures
        s.step(Token::Operator(first)).step(Token::Operator(second)) == s.step(
            Token::Operator(second),
        ),
{
    let once = s.step(Token::Operator(second));
    let twice = s.step(Token::Operator(first)).step(Token::Operator(second));
    assert(twice.tokens =~= once.tokens);
}

/// A digit that the base does not have is not taken: the state stays as it is.
pub proof fn lemma_foreign_digit_changes_nothing(s: EvaluatorState, n: i64)
    requires
        n < 0 || n >= s.base,
    ensures
        s.step(Token::Number(n)) == s,
{
}

/// After an evaluation that gave a value, the display shows that value in the
/// evaluator's base, and nothing else.
pub proof fn lemma_display_after_evaluation(s: EvaluatorState)
    requires
        value_of(s.expression()) is Ok,
    ensures
        s.evaluated().display() == number_text(value_of(s.expression())->Ok_0, s.base),
        s.evaluated().expression() == seq![Token::Number(value_of(s.expression())->Ok_0)],
{
}

/// Evaluating again right after an evaluation that gave a value gives the
/// same value.
pub proof fn lemma_value_is_stable(s: EvaluatorState)
    requires
        value_of(s.expression()) is Ok,
    ensures
        value_of(s.evaluated().expression()) == value_of(s.expression()),
{
    let after = s.evaluated().expression();
    assert(flat_run(after.drop_last()) == FlatRun::empty());
}

} // verus!
