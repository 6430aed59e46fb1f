use crate::decimal::{Decimal, DecimalOps};
use crate::error::CalcError;
use vstd::prelude::*;

verus! {

/// Number of registers in the stack machine.
pub const STACK_SIZE: u8 = 4;

/// A binary operator; it is applied as `Y op X`, where X is the top of the stack.
#[derive(Clone, Copy, Debug, PartialEq, Eq, Structural)]
pub enum Op2 {
    Add,
    Sub,
    Mul,
    Div,
}

impl Op2 {
    /// The checked result of `y op x`.
    pub open spec fn apply_spec(self, y: Decimal, x: Decimal) -> Result<Decimal, CalcError> {
        match self {
            Op2::Add => y.add_spec(x),
            Op2::Sub => y.sub_spec(x),
            Op2::Mul => y.mul_spec(x),
            Op2::Div => y.div_spec(x),
        }
    }
}

/// The abstract state of a machine: the occupied registers, top first, or the
/// error that made it fail.
pub type StackModel = Result<Seq<Decimal>, CalcError>;

/// What a push does to the abstract state.
pub open spec fn push_model(m: StackModel, n: Decimal) -> StackModel {
    match m {
        Ok(s) => if s.len() >= STACK_SIZE {
            Err(CalcError::CapacityExceeded(STACK_SIZE))
        } else {
            Ok(seq![n] + s)
        },
        Err(e) => Err(e),
    }
}

/// What applying an operator does to the abstract state.
pub open spec fn operate_model(m: StackModel, op: Op2) -> StackModel {
    match m {
        Ok(s) => if s.len() < 2 {
            Err(CalcError::MissingOperand)
        } else {
            match op.apply_spec(s[1], s[0]) {
                Ok(v) => Ok(seq![v] + s.skip(2)),
                Err(e) => Err(e),
            }
        },
        Err(e) => Err(e),
    }
}

/// The top register (X) of the abstract state.
pub open spec fn top_model(m: StackModel) -> Result<Decimal, CalcError> {
    match m {
        Ok(s) => if s.len() >= 1 {
            Ok(s[0])
        } else {
            Err(CalcError::XNotSet)
        },
        Err(e) => Err(e),
    }
}

/// The second register (Y) of the abstract state.
pub open spec fn second_model(m: StackModel) -> Result<Decimal, CalcError> {
    match m {
        Ok(s) => if s.len() >= 2 {
            Ok(s[1])
        } else {
            Err(CalcError::YNotSet)
        },
        Err(e) => Err(e),
    }
}

/// A stack machine: operational with its registers and the number in use, or
/// failed with the error that stopped it.
#[derive(Clone, Copy, Debug)]
pub enum Stack {
    Operational { data: [Decimal; 4], stack_count: u8 },
    Failed(CalcError),
}

impl View for Stack {
    type V = StackModel;

    open spec fn view(&self) -> StackModel {
        match *self {
            Stack::Operational { data, stack_count } => Ok(data@.take(stack_count as int)),
            Stack::Failed(e) => Err(e),
        }
    }
}

impl Stack {
    /// At most `STACK_SIZE` registers are in use, and every unused one holds zero.
    pub open spec fn wf(self) -> bool {
        match self {
            Stack::Operational { data, stack_count } => {
                &&& stack_count <= STACK_SIZE
                &&& forall|i: int|
                    stack_count <= i < STACK_SIZE ==> #[trigger] data@[i] == Decimal::zero_spec()
            },
            Stack::Failed(_) => true,
        }
    }

    /// An empty, operational machine.
    pub fn new() -> (r: Stack)
        ensures
            r.wf(),
            r@ == Ok::<Seq<Decimal>, CalcError>(Seq::empty()),
    {
        let z = Decimal::zero();
        let data = [z, z, z, z];
        let r = Stack::Operational { data, stack_count: 0 };
        assert(r@ == Ok::<Seq<Decimal>, CalcError>(Seq::empty())) by {
            assert(data@.take(0) =~= Seq::<Decimal>::empty());
        }
        r
    }

    /// The top register (X).
    pub fn x(&self) -> (r: Result<Decimal, CalcError>)
        requires
            self.wf(),
        ensures
            r == top_model(self@),
    {
        match self {
            Stack::Operational { data, stack_count } => {
                if *stack_count >= 1 {
                    Ok(data[0])
                } else {
                    Err(CalcError::XNotSet)
                }
            },
            Stack::Failed(e) => Err(*e),
        }
    }

    /// The second register (Y).
    pub fn y(&self) -> (r: Result<Decimal, CalcError>)
        requires
            self.wf(),
        ensures
            r == second_model(self@),
    {
        match self {
            Stack::Operational { data, stack_count } => {
                if *stack_count >= 2 {
                    Ok(data[1])
                } else {
                    Err(CalcError::YNotSet)
                }
            },
            Stack::Failed(e) => Err(*e),
        }
    }

    /// Pushes `n`: the used registers move one slot down and `n` becomes X.
    pub fn enter(self, n: Decimal) -> (r: Stack)
        requires
            self.wf(),
        ensures
            r.wf(),
            r@ == push_model(self@, n),
    {
        match self {
            Stack::Operational { data, stack_count } => {
                if stack_count >= STACK_SIZE {
                    return Stack::Failed(CalcError::CapacityExceeded(STACK_SIZE));
                }
                let ghost before = data;
                let mut data = data;
                let mut i: usize = stack_count as usize;
                while i > 0
                    invariant
                        i <= stack_count < STACK_SIZE,
                        forall|j: int| 0 <= j <= i ==> #[trigger] data@[j] == before@[j],
                        forall|j: int| i < j <= stack_count ==> #[trigger] data@[j] == before@[j - 1],
                        forall|j: int| stack_count < j < STACK_SIZE ==> #[trigger] data@[j] == before@[j],
                    decreases i,
                {
                    data[i] = data[i - 1];
                    i = i - 1;
                }
                data[0] = n;
                let r = Stack::Operational { data, stack_count: stack_count + 1 };
                assert(data@.take(stack_count + 1) =~= seq![n] + before@.take(stack_count as int));
                r
            },
            Stack::Failed(e) => Stack::Failed(e),
        }
    }

    /// Applies `op` to Y and X: both leave, the result becomes X, and the
    /// registers below move one slot up.
    pub fn op2(self, op: Op2) -> (r: Stack)
        requires
            self.wf(),
        ensures
            r.wf(),
            r@ == operate_model(self@, op),
    {
        match self {
            Stack::Operational { data, stack_count } => {
                if stack_count < 2 {
                    return Stack::Failed(CalcError::MissingOperand);
                }
                let result_x = match op {
                    Op2::Add => data[1].add(data[0]),
                    Op2::Sub => data[1].sub(data[0]),
                    Op2::Mul => data[1].mul(data[0]),
                    Op2::Div => data[1].div(data[0]),
                };
                match result_x {
                    Ok(x) => {
                        let z = Decimal::zero();
                        let next = [x, data[2], data[3], z];
                        let r = Stack::Operational { data: next, stack_count: stack_count - 1 };
                        assert(next@.take(stack_count - 1) =~= seq![x] + data@.take(
                            stack_count as int,
                        ).skip(2));
                        r
                    },
                    Err(e) => Stack::Failed(e),
                }
            },
            Stack::Failed(e) => Stack::Failed(e),
        }
    }

    /// The number of registers in use, or `None` once failed.
    pub fn stack_count(&self) -> (r: Option<u8>)
        ensures
            r == match *self {
                Stack::Operational { stack_count, .. } => Some(stack_count),
                Stack::Failed(_) => None,
            },
    {
        match self {
            Stack::Operational { stack_count, .. } => Some(*stack_count),
            Stack::Failed(_) => None,
        }
    }

    /// All registers, used or not, or `None` once failed.
    pub fn data(&self) -> (r: Option<[Decimal; 4]>)
        ensures
            r == match *self {
                Stack::Operational { data, .. } => Some(data),
                Stack::Failed(_) => None,
            },
    {
        match self {
            Stack::Operational { data, .. } => Some(*data),
            Stack::Failed(_) => None,
        }
    }

    /// Whether the machine has failed.
    pub fn is_err(&self) -> (r: bool)
        ensures
            r == self@ is Err,
    {
        match self {
            Stack::Operational { .. } => false,
            Stack::Failed(_) => true,
        }
    }

    /// The error that made the machine fail, or `None` while it is operational.
    pub fn err(&self) -> (r: Option<CalcError>)
        ensures
            r == match self@ {
                Ok(_) => None,
                Err(e) => Some(e),
            },
    {
        match self {
            Stack::Operational { .. } => None,
            Stack::Failed(e) => Some(*e),
        }
    }
}

/// One step of a postfix program: push a value, or apply an operator.
#[derive(Clone, Copy, Debug)]
pub enum Token {
    Push(Decimal),
    Apply(Op2),
}

/// What one step does to the abstract state.
pub open spec fn step_model(m: StackModel, t: Token) -> StackModel {
    match t {
        Token::Push(n) => push_model(m, n),
        Token::Apply(op) => operate_model(m, op),
    }
}

/// The abstract state after running the steps `ts` in order from `m`.
pub open spec fn run_model(m: StackModel, ts: Seq<Token>) -> StackModel
    decreases ts.len(),
{
    if ts.len() == 0 {
        m
    } else {
        step_model(run_model(m, ts.drop_last()), ts.last())
    }
}

/// Runs a postfix program on an empty machine, one token after another.
pub fn rpn(tokens: &[Token]) -> (r: Stack)
    ensures
        r.wf(),
        r@ == run_model(Ok(Seq::empty()), tokens@),
{
    let mut stack = Stack::new();
    let mut i: usize = 0;
    while i < tokens.len()
        invariant
            i <= tokens@.len(),
            stack.wf(),
            stack@ == run_model(Ok(Seq::empty()), tokens@.take(i as int)),
        decreases tokens@.len() - i,
    {
        let t = tokens[i];
        stack = match t {
            Token::Push(n) => stack.enter(n),
            Token::Apply(op) => stack.op2(op),
        };
        assert(tokens@.take(i + 1).drop_last() =~= tokens@.take(i as int));
        i = i + 1;
    }
    assert(tokens@.take(tokens@.len() as int) =~= tokens@);
    stack
}

/// Once a machine has failed, any further pushes and operators leave it failed
/// with the same error.
pub proof fn lemma_failure_is_sticky(e: CalcError, ts: Seq<Token>)
    ensures
        run_model(Err(e), ts) == Err::<Seq<Decimal>, CalcError>(e),
    decreases ts.len(),
{
    if ts.len() > 0 {
        lemma_failure_is_sticky(e, ts.drop_last());
    }
}

/// A push below capacity succeeds: one more register is in use and the pushed
/// value is on top.
pub proof fn lemma_push_below_capacity(s: Seq<Decimal>, n: Decimal)
    requires
        s.len() < STACK_SIZE,
    ensures
        push_model(Ok(s), n) matches Ok(t) && t.len() == s.len() + 1,
        top_model(push_model(Ok(s), n)) == Ok::<Decimal, CalcError>(n),
{
}

/// A push onto a full machine fails with a capacity error.
pub proof fn lemma_push_at_capacity(s: Seq<Decimal>, n: Decimal)
    requires
        s.len() == STACK_SIZE,
    ensures
        push_model(Ok(s), n) == Err::<Seq<Decimal>, CalcError>(
            CalcError::CapacityExceeded(STACK_SIZE),
        ),
{
}

/// An operator whose checked result `Y op X` is `v` leaves one register fewer in
/// use, with `v` on top.
pub proof fn lemma_operate_success(s: Seq<Decimal>, op: Op2, v: Decimal)
    requires
        s.len() >= 2,
        op.apply_spec(s[1], s[0]) == Ok::<Decimal, CalcError>(v),
    ensures
        operate_model(Ok(s), op) matches Ok(t) && t.len() == s.len() - 1,
        top_model(operate_model(Ok(s), op)) == Ok::<Decimal, CalcError>(v),
{
}

/// An operator applied with fewer than two values present fails for want of an
/// operand, whichever operator it is.
pub proof fn lemma_operate_underflow(s: Seq<Decimal>, op: Op2)
    requires
        s.len() < 2,
    ensures
        operate_model(Ok(s), op) == Err::<Seq<Decimal>, CalcError>(CalcError::MissingOperand),
{
}

/// When the checked operation fails, the machine fails with that very error.
pub proof fn lemma_operate_failure(s: Seq<Decimal>, op: Op2, e: CalcError)
    requires
        s.len() >= 2,
        op.apply_spec(s[1], s[0]) == Err::<Decimal, CalcError>(e),
    ensures
        operate_model(Ok(s), op) == Err::<Seq<Decimal>, CalcError>(e),
{
}

/// Dividing by a zero X fails with a division-by-zero error.
pub proof fn lemma_division_by_zero(s: Seq<Decimal>)
    requires
        s.len() >= 2,
        s[0].is_zero_spec(),
    ensures
        operate_model(Ok(s), Op2::Div) == Err::<Seq<Decimal>, CalcError>(
            CalcError::DivisionByZero,
        ),
{
}

/// A failed machine reports its error when X or Y is read.
pub proof fn lemma_read_after_failure(e: CalcError)
    ensures
        top_model(Err(e)) == Err::<Decimal, CalcError>(e),
        second_model(Err(e)) == Err::<Decimal, CalcError>(e),
{
}

} // verus!
