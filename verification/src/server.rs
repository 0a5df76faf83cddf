//! The dispatcher: from an operation and its operands to a refusal or an
//! admitted evaluation.

use vstd::prelude::*;
use crate::double::SIGN_MASK;
use crate::double::lemma_zero_patterns;
use crate::message::{CalcError, Evaluation, Operation, TwoNumbers, DIVISION_BY_ZERO};

verus! {

/// The stateless handler of the six operations.
#[derive(Clone, Copy, Debug)]
pub struct DivisionServer;

impl Default for DivisionServer {
    fn default() -> (server: DivisionServer)
        ensures
            server == DivisionServer,
    {
        DivisionServer
    }
}

impl DivisionServer {
    /// Whether a request is refused: its operation excludes a zero divisor
    /// and its right operand is a zero.
    pub open spec fn refuses(operation: Operation, request: TwoNumbers) -> bool {
        operation.excludes_zero_divisor() && request.b.is_zero()
    }

    /// Whether `response` is the answer owed to a request: the
    /// invalid-argument error with the division-by-zero message where the
    /// request is refused, and otherwise the evaluation of that operation on
    /// those operands.
    pub open spec fn answers(
        operation: Operation,
        request: TwoNumbers,
        response: Result<Evaluation, CalcError>,
    ) -> bool {
        if Self::refuses(operation, request) {
            response matches Err(error) && error.spec_message() == DIVISION_BY_ZERO@
        } else {
            response matches Ok(evaluation) && evaluation == (Evaluation {
                operation,
                operands: request,
            })
        }
    }

    /// Handles a request for any of the six operations. The divisor is
    /// tested before anything is evaluated, so a refused request never
    /// reaches the arithmetic.
    pub fn dispatch(&self, operation: Operation, request: TwoNumbers) -> (response: Result<
        Evaluation,
        CalcError,
    >)
        ensures
            Self::answers(operation, request, response),
    {
        if operation.excludes_zero_divisor() && request.b.is_zero() {
            Err(CalcError::InvalidArgument(DIVISION_BY_ZERO.to_owned()))
        } else {
            Ok(Evaluation { operation, operands: request })
        }
    }

    /// Admits the sum `a + b` for evaluation, whatever the operands.
    pub fn add(&self, request: TwoNumbers) -> (response: Result<Evaluation, CalcError>)
        ensures
            response is Ok,
            Self::answers(Operation::Add, request, response),
    {
        Ok(Evaluation { operation: Operation::Add, operands: request })
    }

    /// Admits the difference `a - b` for evaluation, whatever the operands.
    pub fn subtract(&self, request: TwoNumbers) -> (response: Result<Evaluation, CalcError>)
        ensures
            response is Ok,
            Self::answers(Operation::Subtract, request, response),
    {
        Ok(Evaluation { operation: Operation::Subtract, operands: request })
    }

    /// Admits the product `a * b` for evaluation, whatever the operands.
    pub fn multiply(&self, request: TwoNumbers) -> (response: Result<Evaluation, CalcError>)
        ensures
            response is Ok,
            Self::answers(Operation::Multiply, request, response),
    {
        Ok(Evaluation { operation: Operation::Multiply, operands: request })
    }

    /// Refuses the quotient `a / b` where `b` is a zero, and admits it for
    /// evaluation otherwise.
    pub fn divide(&self, request: TwoNumbers) -> (response: Result<Evaluation, CalcError>)
        ensures
            response is Err <==> request.b.is_zero(),
            Self::answers(Operation::Divide, request, response),
    {
        if request.b.is_zero() {
            return Err(CalcError::InvalidArgument(DIVISION_BY_ZERO.to_owned()));
        }
        Ok(Evaluation { operation: Operation::Divide, operands: request })
    }

    /// Refuses the remainder of `a / b` where `b` is a zero, and admits it
    /// for evaluation otherwise.
    pub fn modulus(&self, request: TwoNumbers) -> (response: Result<Evaluation, CalcError>)
        ensures
            response is Err <==> request.b.is_zero(),
            Self::answers(Operation::Modulus, request, response),
    {
        if request.b.is_zero() {
            return Err(CalcError::InvalidArgument(DIVISION_BY_ZERO.to_owned()));
        }
        Ok(Evaluation { operation: Operation::Modulus, operands: request })
    }

    /// Admits the power `a` raised to `b` for evaluation, whatever the
    /// operands: a base or an exponent for which the power is undefined is
    /// not an error of the service.
    pub fn exponentiate(&self, request: TwoNumbers) -> (response: Result<Evaluation, CalcError>)
        ensures
            response is Ok,
            Self::answers(Operation::Exponentiate, request, response),
    {
        Ok(Evaluation { operation: Operation::Exponentiate, operands: request })
    }

    /// A request has one answer. Two responses that are both owed to the
    /// same operation on the same operands agree: both admit the same
    /// evaluation, or both refuse with the same message. So a repeated call
    /// repeats its result, whichever server handles it and whatever was
    /// handled in between.
    pub proof fn lemma_answer_is_unique(
        operation: Operation,
        request: TwoNumbers,
        first: Result<Evaluation, CalcError>,
        second: Result<Evaluation, CalcError>,
    )
        requires
            Self::answers(operation, request, first),
            Self::answers(operation, request, second),
        ensures
            first is Ok <==> second is Ok,
            first is Ok ==> first->Ok_0 == second->Ok_0,
            first is Err ==> first->Err_0.spec_message() == second->Err_0.spec_message(),
    {
    }

    /// The only refusal is the division by zero. A request is refused
    /// exactly when it asks for a quotient or a remainder and its right
    /// operand is the positive or the negative zero; the left operand plays
    /// no part, and the other four operations refuse nothing.
    pub proof fn lemma_refusal_is_division_by_zero(operation: Operation, request: TwoNumbers)
        ensures
            Self::refuses(operation, request) <==> (operation is Divide || operation is Modulus)
                && (request.b.bits == 0 || request.b.bits == SIGN_MASK),
    {
        lemma_zero_patterns(request.b);
    }
}

} // verus!
