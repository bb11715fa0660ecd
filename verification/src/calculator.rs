//! The incremental evaluator: it takes one token at a time, folds digits into
//! a pending number, and reduces the whole expression on request.

use vstd::prelude::*;
use vstd::string::*;
use crate::numeral::{number_text, render_number, supported_base};
use crate::reduction::{
    append_range, compute, find_first_close, find_last_open, flat_value, joins,
    lemma_first_close, lemma_last_open_before, lemma_products_failure_stands,
    lemma_strip_shortens, lemma_total_failure_stands, products, read_run, reduce_flat, signs,
    strip_all, strip_innermost, total, value_of,
};
use crate::state::{tokens_text, EvaluatorState};
use crate::types::{EvaluationError, Operator, Token};

verus! {

/// The number being typed, and the base it is typed in.
struct DigitEntry {
    base: u8,
    value: i64,
    active: bool,
}

impl DigitEntry {
    #[verifier::type_invariant]
    spec fn well_formed(self) -> bool {
        &&& supported_base(self.base as int)
        &&& self.value >= 0
        &&& !self.active ==> self.value == 0
    }
}

/// An evaluator for one calculator screen.
pub struct Calculator {
    tokens: Vec<Token>,
    entry: DigitEntry,
    paren_depth_hint: bool,
}

impl View for Calculator {
    type V = EvaluatorState;

    closed spec fn view(&self) -> EvaluatorState {
        EvaluatorState {
            tokens: self.tokens@,
            pending_value: self.entry.value as int,
            digit_entry_active: self.entry.active,
            paren_depth_hint: self.paren_depth_hint,
            base: self.entry.base as int,
        }
    }
}

impl Default for Calculator {
    /// An empty decimal evaluator.
    fn default() -> (calculator: Calculator)
        ensures
            calculator@ == EvaluatorState::empty(10),
    {
        Calculator::new(10)
    }
}

impl Calculator {
    /// An empty evaluator that works in `base`.
    pub fn new(base: u8) -> (calculator: Calculator)
        requires
            supported_base(base as int),
        ensures
            calculator@ == EvaluatorState::empty(base as int),
    {
        Calculator {
            tokens: Vec::new(),
            entry: DigitEntry { base, value: 0, active: false },
            paren_depth_hint: false,
        }
    }

    /// The base that digits are entered and numbers are shown in.
    pub fn base(&self) -> (base: u8)
        ensures
            base == self@.base,
            supported_base(base as int),
    {
        proof {
            use_type_invariant(&self.entry);
        }
        self.entry.base
    }

    /// The committed tokens.
    pub fn tokens(&self) -> (tokens: &Vec<Token>)
        ensures
            tokens@ == self@.tokens,
    {
        &self.tokens
    }

    /// The number spelled by the digits typed since the last commit.
    pub fn pending_value(&self) -> (value: i64)
        ensures
            value == self@.pending_value,
            value >= 0,
            !self@.digit_entry_active ==> value == 0,
    {
        proof {
            use_type_invariant(&self.entry);
        }
        self.entry.value
    }

    /// Whether digits were typed that are not committed yet.
    pub fn digit_entry_active(&self) -> (active: bool)
        ensures
            active == self@.digit_entry_active,
    {
        self.entry.active
    }

    /// Whether an opening parenthesis was entered since the last reset.
    pub fn paren_depth_hint(&self) -> (opened: bool)
        ensures
            opened == self@.paren_depth_hint,
    {
        self.paren_depth_hint
    }

    /// Commits the pending number, if there is one.
    fn flush(&mut self)
        ensures
            final(self)@ == old(self)@.flushed(),
    {
        proof {
            use_type_invariant(&self.entry);
        }
        if self.entry.active {
            self.tokens.push(Token::Number(self.entry.value));
            self.entry.value = 0;
            self.entry.active = false;
        }
    }

    /// Enters one token.
    ///
    /// A digit joins the number being typed. An operator or a parenthesis
    /// commits that number and is committed after it, `Equals` only commits
    /// it, `ClearAll` empties the evaluator and `ClearLast` undoes the last
    /// entry. A digit that the base does not have is not taken.
    pub fn add_token(&mut self, token: Token)
        ensures
            final(self)@ == old(self)@.step(token),
            !token.valid_for_base(old(self)@.base) ==> final(self)@ == old(self)@,
            final(self)@.wf(),
    {
        proof {
            use_type_invariant(&self.entry);
        }
        if token.is_valid_for_base(self.entry.base) {
            match token {
                Token::Number(n) => {
                    let base = self.entry.base as i64;
                    assert(self.entry.value * base >= 0) by (nonlinear_arith)
                        requires
                            self.entry.value >= 0,
                            base >= 0,
                    ;
                    let grown = match self.entry.value.checked_mul(base) {
                        Some(shifted) => shifted.checked_add(n),
                        None => None,
                    };
                    if let Some(value) = grown {
                        self.entry.active = true;
                        self.entry.value = value;
                    }
                },
                Token::Operator(op) => {
                    if self.entry.active {
                        self.flush();
                        self.tokens.push(Token::Operator(op));
                    } else {
                        let len = self.tokens.len();
                        let overwrite = len > 0 && match self.tokens[len - 1] {
                            Token::Operator(_) => true,
                            _ => false,
                        };
                        if overwrite {
                            self.tokens.set(len - 1, Token::Operator(op));
                            assert(self.tokens@ =~= old(self).tokens@.drop_last().push(
                                Token::Operator(op),
                            ));
                        } else {
                            self.tokens.push(Token::Operator(op));
                        }
                    }
                },
                Token::LeftParen => {
                    if self.entry.active {
                        self.flush();
                        self.tokens.push(Token::Operator(Operator::Multiply));
                    }
                    self.tokens.push(Token::LeftParen);
                    self.paren_depth_hint = true;
                },
                Token::RightParen => {
                    self.flush();
                    self.tokens.push(Token::RightParen);
                },
                Token::Equals => {
                    self.flush();
                },
                Token::ClearAll => {
                    self.tokens.clear();
                    self.entry.value = 0;
                    self.entry.active = false;
                    self.paren_depth_hint = false;
                },
                Token::ClearLast => {
                    if self.entry.active {
                        let shortened = self.entry.value / (self.entry.base as i64);
                        self.entry.value = shortened;
                        if shortened == 0 {
                            self.entry.active = false;
                        }
                    } else if self.tokens.len() > 0 {
                        self.tokens.pop();
                    }
                },
            }
        }
        proof {
            use_type_invariant(&self.entry);
        }
    }

    /// What the evaluator shows: the committed tokens, and the number being
    /// typed after them, with one space between neighbours. An evaluator that
    /// holds nothing shows nothing.
    pub fn get_display(&self) -> (shown: String)
        ensures
            shown@ == self@.display(),
            self@.expression().len() == 0 ==> shown@.len() == 0,
    {
        proof {
            use_type_invariant(&self.entry);
        }
        let base = self.entry.base;
        let mut shown = String::new();
        let mut i: usize = 0;
        while i < self.tokens.len()
            invariant
                i <= self.tokens.len(),
                supported_base(base as int),
                shown@ == tokens_text(self.tokens@.take(i as int), base as int),
            decreases self.tokens.len() - i,
        {
            if i > 0 {
                shown.append(" ");
            }
            let piece = self.tokens[i].render(base);
            shown.append(piece.as_str());
            proof {
                reveal_strlit(" ");
                let read = self.tokens@.take(i + 1);
                assert(read.drop_last() =~= self.tokens@.take(i as int));
            }
            i += 1;
        }
        assert(self.tokens@.take(i as int) =~= self.tokens@);
        if self.entry.active {
            if self.tokens.len() > 0 {
                shown.append(" ");
            }
            let piece = render_number(self.entry.value, base);
            shown.append(piece.as_str());
            proof {
                reveal_strlit(" ");
                let whole = self.tokens@.push(Token::Number(self.entry.value));
                assert(whole.drop_last() =~= self.tokens@);
            }
        }
        shown
    }

    /// What `numbers`, joined by `operators`, are worth: operator `k` stands
    /// between number `k` and number `k + 1`. Every `*` and `/` is taken
    /// first, left to right, then every `+` and `-`, left to right.
    pub fn calculate_equation(&self, operators: &[Operator], numbers: &[i64]) -> (result: Result<
        i64,
        EvaluationError,
    >)
        ensures
            result == reduce_flat(numbers@, operators@),
    {
        if numbers.len() == 0 {
            return Ok(0);
        }
        let joined: usize = if operators.len() < numbers.len() {
            operators.len()
        } else {
            numbers.len() - 1
        };
        let mut terms: Vec<i64> = Vec::new();
        terms.push(numbers[0]);
        let mut kept: Vec<Operator> = Vec::new();
        let mut i: usize = 0;
        while i < joined
            invariant
                i <= joined,
                joined == joins(numbers@, operators@),
                joined < numbers.len(),
                joined <= operators.len(),
                products(numbers@, operators@, i as nat) == Ok::<Seq<i64>, EvaluationError>(
                    terms@,
                ),
                kept@ == signs(operators@, i as nat),
                terms.len() == kept.len() + 1,
            decreases joined - i,
        {
            let op = operators[i];
            let next = numbers[i + 1];
            if op.is_multiplicative() {
                let last = terms.len() - 1;
                let ghost done = terms@;
                match compute(op, terms[last], next) {
                    Err(e) => {
                        proof {
                            assert(products(numbers@, operators@, (i + 1) as nat) == Err::<
                                Seq<i64>,
                                EvaluationError,
                            >(e));
                            lemma_products_failure_stands(
                                numbers@,
                                operators@,
                                (i + 1) as nat,
                                joined as nat,
                            );
                        }
                        return Err(e);
                    },
                    Ok(v) => {
                        terms.set(last, v);
                        assert(terms@ =~= done.drop_last().push(v));
                    },
                }
            } else {
                terms.push(next);
                kept.push(op);
            }
            i += 1;
        }
        let mut sum = terms[0];
        let mut j: usize = 0;
        while j < kept.len()
            invariant
                j <= kept.len(),
                terms.len() == kept.len() + 1,
                numbers.len() > 0,
                products(numbers@, operators@, joins(numbers@, operators@)) == Ok::<
                    Seq<i64>,
                    EvaluationError,
                >(terms@),
                kept@ == signs(operators@, joins(numbers@, operators@)),
                total(terms@, kept@, j as nat) == Ok::<i64, EvaluationError>(sum),
            decreases kept.len() - j,
        {
            match compute(kept[j], sum, terms[j + 1]) {
                Err(e) => {
                    proof {
                        assert(total(terms@, kept@, (j + 1) as nat) == Err::<i64, EvaluationError>(
                            e,
                        ));
                        lemma_total_failure_stands(
                            terms@,
                            kept@,
                            (j + 1) as nat,
                            kept@.len(),
                        );
                    }
                    return Err(e);
                },
                Ok(v) => {
                    sum = v;
                },
            }
            j += 1;
        }
        Ok(sum)
    }

    /// Reduces every parenthesized group of `tokens`, innermost first and left
    /// to right, to the number it is worth.
    fn strip_groups(&self, tokens: &Vec<Token>) -> (result: Result<Vec<Token>, EvaluationError>)
        ensures
            match result {
                Ok(flat) => strip_all(tokens@) == Ok::<Seq<Token>, EvaluationError>(flat@),
                Err(e) => strip_all(tokens@) == Err::<Seq<Token>, EvaluationError>(e),
            },
    {
        let mut work: Vec<Token> = Vec::new();
        append_range(&mut work, tokens, 0, tokens.len());
        assert(work@ =~= tokens@);
        loop
            invariant
                strip_all(work@) == strip_all(tokens@),
            decreases work.len(),
        {
            let close = find_first_close(&work);
            let found = find_last_open(&work, close);
            proof {
                lemma_first_close(work@);
                lemma_last_open_before(work@, close as int);
            }
            if close == work.len() {
                match found {
                    None => {
                        return Ok(work);
                    },
                    Some(_) => {
                        return Err(EvaluationError::MismatchedParentheses);
                    },
                }
            }
            match found {
                None => {
                    return Err(EvaluationError::MismatchedParentheses);
                },
                Some(open) => {
                    let (numbers, operators) = read_run(&work, open + 1, close);
                    match self.calculate_equation(operators.as_slice(), numbers.as_slice()) {
                        Err(e) => {
                            return Err(e);
                        },
                        Ok(v) => {
                            let mut next: Vec<Token> = Vec::new();
                            append_range(&mut next, &work, 0, open);
                            next.push(Token::Number(v));
                            append_range(&mut next, &work, close + 1, work.len());
                            proof {
                                lemma_strip_shortens(work@);
                                assert(strip_innermost(work@) == Ok::<
                                    Seq<Token>,
                                    EvaluationError,
                                >(next@));
                            }
                            work = next;
                        },
                    }
                },
            }
        }
    }

    /// Reduces the committed tokens as one run without parentheses. Where the
    /// run has a value, that value becomes the only token.
    fn evaluate_full_expression(&mut self) -> (result: Result<i64, EvaluationError>)
        ensures
            result == flat_value(old(self)@.tokens),
            final(self)@ == (match result {
                Ok(v) => EvaluatorState { tokens: seq![Token::Number(v)], ..old(self)@ },
                Err(_) => old(self)@,
            }),
    {
        let (numbers, operators) = read_run(&self.tokens, 0, self.tokens.len());
        assert(self.tokens@.subrange(0, self.tokens@.len() as int) =~= self.tokens@);
        match self.calculate_equation(operators.as_slice(), numbers.as_slice()) {
            Err(e) => Err(e),
            Ok(v) => {
                self.tokens.clear();
                self.tokens.push(Token::Number(v));
                Ok(v)
            },
        }
    }

    /// Reduces the expression built so far to a single number.
    ///
    /// The pending number is committed first, as `Equals` does. Where the
    /// expression has a value, that value is returned and becomes the only
    /// token. Where the evaluation fails, the error is returned and the
    /// expression stays as it was entered.
    pub fn evaluate(&mut self) -> (result: Result<i64, EvaluationError>)
        ensures
            result == value_of(old(self)@.expression()),
            final(self)@ == old(self)@.evaluated(),
            final(self)@.wf(),
            result matches Ok(v) ==> final(self)@.display() == number_text(v, old(self)@.base),
    {
        self.flush();
        proof {
            use_type_invariant(&self.entry);
        }
        match self.strip_groups(&self.tokens) {
            Err(e) => Err(e),
            Ok(flat) => {
                let mut entered = flat;
                core::mem::swap(&mut self.tokens, &mut entered);
                match self.evaluate_full_expression() {
                    Ok(v) => Ok(v),
                    Err(e) => {
                        self.tokens = entered;
                        Err(e)
                    },
                }
            },
        }
    }
}

} // verus!
