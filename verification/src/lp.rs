//! Trusted boundary to the `microlp` mixed-integer linear-programming
//! solver.
//!
//! The solver's problem, variable and solution types are opaque here;
//! uninterpreted names stand for their contents (how many variables a
//! problem holds, which bounds, objective coefficients and constraints
//! were recorded, what one solve of it classifies as), and each wrapper
//! states over those names exactly what `microlp`'s source shows its call
//! to do. `Problem::solve` and `Solution::var_value` are deterministic
//! functions of the problem and solution values alone — the solve path
//! uses no randomness, time, environment, or hash-map iteration — so the
//! outcome of a solve and the value read for a variable may be named.
//! Nothing here promises which outcome a solve reaches or which numeric
//! values a solution carries: every computation on solved values happens
//! in verified code that holds for whatever came back.
use vstd::prelude::*;

verus! {

#[verifier::external_type_specification]
#[verifier::external_body]
pub struct ExProblem(microlp::Problem);

#[verifier::external_type_specification]
#[verifier::external_body]
pub struct ExVariable(microlp::Variable);

/// The solver's solution object, held opaquely: Verus refuses the direct
/// declaration because this crate has a `Solution` type of its own, so the
/// value lives in a hidden field and is only read through `lp_value_u16`.
#[verifier::external_body]
pub struct LpSolution {
    inner: microlp::Solution,
}

/// Whether the optimization objective is minimized or maximized.
#[derive(Debug, Clone, Copy)]
pub enum MinOrMax {
    Min,
    Max,
}

/// The relation between a constraint's left-hand sum and its right-hand
/// side.
#[derive(Debug, Clone, Copy)]
pub enum LpRelation {
    Eq,
    Ge,
    Le,
}

/// What one run of the solver produced: a solution, one of the two named
/// failure modes, or another failure with its formatted message.
pub enum LpOutcome {
    Solved(LpSolution),
    Infeasible,
    Unbounded,
    Failure(String),
}

/// The classification one solve of a problem reaches; a solve's outcome
/// is a function of the problem value alone.
#[derive(Debug, Clone, Copy, PartialEq, Eq, Structural)]
pub enum LpOutcomeKind {
    Solved,
    Infeasible,
    Unbounded,
    Failed,
}

/// How many variables a problem holds: each `add_var`-style call adds one.
pub uninterp spec fn lp_num_vars(p: microlp::Problem) -> nat;

/// A variable's zero-based creation index within its problem.
pub uninterp spec fn lp_var_index(v: microlp::Variable) -> nat;

/// The objective coefficient each variable was added with, in creation
/// order (as the integer handed to the wrapper).
pub uninterp spec fn lp_objectives(p: microlp::Problem) -> Seq<int>;

/// The inclusive `(min, max)` bounds each variable was added with, in
/// creation order.
pub uninterp spec fn lp_bounds(p: microlp::Problem) -> Seq<(int, int)>;

/// Whether each variable, in creation order, is an integer variable.
pub uninterp spec fn lp_integrality(p: microlp::Problem) -> Seq<bool>;

/// The constraints a problem holds, in insertion order: each one's terms
/// (variable index, coefficient), its relation, and its right-hand side.
pub uninterp spec fn lp_constraints(p: microlp::Problem) -> Seq<(Seq<(nat, int)>, LpRelation, int)>;

/// Whether the problem's objective is minimized (else maximized).
pub uninterp spec fn lp_minimizes(p: microlp::Problem) -> bool;

/// The problem's data is finite machine-integer data built through these
/// wrappers alone; within such data the solve path is relied on not to
/// panic (its steepest-edge updates assert finiteness, which raw
/// non-finite data handed to the problem directly would violate, and its
/// integer search re-optimizes after fixing a variable of a solvable
/// relaxation).
pub uninterp spec fn lp_wf(p: microlp::Problem) -> bool;

/// Which classification one solve of this problem reaches.
pub uninterp spec fn lp_outcome_of(p: microlp::Problem) -> LpOutcomeKind;

/// The message a failed (neither infeasible nor unbounded) solve of this
/// problem reports.
pub uninterp spec fn lp_failure_of(p: microlp::Problem) -> Seq<char>;

/// The solution one solve of this problem produces, when it solves.
pub uninterp spec fn lp_solution_of(p: microlp::Problem) -> LpSolution;

/// How many variables the problem that produced a solution held.
pub uninterp spec fn lp_solution_num_vars(s: LpSolution) -> nat;

/// A solution's value for the variable of one index, truncated toward
/// zero into 16 bits; a function of the solution value and the index.
pub uninterp spec fn lp_truncated_value(s: LpSolution, index: nat) -> u16;

/// Relies on `microlp::Problem::new`: a fresh problem has no variables
/// and no constraints, and minimizes exactly when asked to.
#[verifier::external_body]
pub(crate) fn lp_new_problem(direction: MinOrMax) -> (p: microlp::Problem)
    ensures
        lp_num_vars(p) == 0,
        lp_objectives(p) == Seq::<int>::empty(),
        lp_bounds(p) == Seq::<(int, int)>::empty(),
        lp_integrality(p) == Seq::<bool>::empty(),
        lp_constraints(p) == Seq::<(Seq<(nat, int)>, LpRelation, int)>::empty(),
        lp_minimizes(p) == (direction is Min),
        lp_wf(p),
{
    match direction {
        MinOrMax::Min => microlp::Problem::new(microlp::OptimizationDirection::Minimize),
        MinOrMax::Max => microlp::Problem::new(microlp::OptimizationDirection::Maximize),
    }
}

/// Relies on `microlp::Problem::add_var`: it appends one continuous
/// variable with the given objective coefficient and inclusive bounds,
/// whose index is the number of variables added before it, and touches
/// nothing else.
#[verifier::external_body]
pub(crate) fn lp_add_var(p: &mut microlp::Problem, obj_coeff: i64, min: i64, max: i64) -> (v:
    microlp::Variable)
    requires
        lp_wf(*old(p)),
    ensures
        lp_num_vars(*final(p)) == lp_num_vars(*old(p)) + 1,
        lp_var_index(v) == lp_num_vars(*old(p)),
        lp_objectives(*final(p)) == lp_objectives(*old(p)).push(obj_coeff as int),
        lp_bounds(*final(p)) == lp_bounds(*old(p)).push((min as int, max as int)),
        lp_integrality(*final(p)) == lp_integrality(*old(p)).push(false),
        lp_constraints(*final(p)) == lp_constraints(*old(p)),
        lp_minimizes(*final(p)) == lp_minimizes(*old(p)),
        lp_wf(*final(p)),
{
    p.add_var(obj_coeff as _, (min as _, max as _))
}

/// Relies on `microlp::Problem::add_integer_var`: as `add_var`, but the
/// appended variable is an integer variable.
#[verifier::external_body]
pub(crate) fn lp_add_integer_var(p: &mut microlp::Problem, obj_coeff: i64, min: i32, max: i32) -> (v:
    microlp::Variable)
    requires
        lp_wf(*old(p)),
    ensures
        lp_num_vars(*final(p)) == lp_num_vars(*old(p)) + 1,
        lp_var_index(v) == lp_num_vars(*old(p)),
        lp_objectives(*final(p)) == lp_objectives(*old(p)).push(obj_coeff as int),
        lp_bounds(*final(p)) == lp_bounds(*old(p)).push((min as int, max as int)),
        lp_integrality(*final(p)) == lp_integrality(*old(p)).push(true),
        lp_constraints(*final(p)) == lp_constraints(*old(p)),
        lp_minimizes(*final(p)) == lp_minimizes(*old(p)),
        lp_wf(*final(p)),
{
    p.add_integer_var(obj_coeff as _, (min, max))
}

/// Relies on `microlp::Problem::add_constraint`: it appends exactly the
/// given constraint, adds no variable, and panics only on a term list
/// with a duplicate or out-of-range variable, which the preconditions
/// exclude.
#[verifier::external_body]
pub(crate) fn lp_add_constraint(
    p: &mut microlp::Problem,
    terms: &Vec<(microlp::Variable, i64)>,
    relation: LpRelation,
    rhs: i64,
)
    requires
        lp_wf(*old(p)),
        forall|i: int|
            0 <= i < terms@.len() ==> lp_var_index(terms@[i].0) < lp_num_vars(*old(p)),
        forall|i: int, j: int|
            0 <= i < j < terms@.len() ==> lp_var_index(terms@[i].0) != lp_var_index(terms@[j].0),
    ensures
        lp_num_vars(*final(p)) == lp_num_vars(*old(p)),
        lp_objectives(*final(p)) == lp_objectives(*old(p)),
        lp_bounds(*final(p)) == lp_bounds(*old(p)),
        lp_integrality(*final(p)) == lp_integrality(*old(p)),
        lp_constraints(*final(p)) == lp_constraints(*old(p)).push(
            (terms@.map_values(|t: (microlp::Variable, i64)| (lp_var_index(t.0), t.1 as int)), relation, rhs as int),
        ),
        lp_minimizes(*final(p)) == lp_minimizes(*old(p)),
        lp_wf(*final(p)),
{
    let op = match relation {
        LpRelation::Eq => microlp::ComparisonOp::Eq,
        LpRelation::Ge => microlp::ComparisonOp::Ge,
        LpRelation::Le => microlp::ComparisonOp::Le,
    };
    p.add_constraint(terms.iter().map(|t| (t.0, t.1 as _)), op, rhs as _)
}

/// Relies on `microlp::Problem::solve`: a deterministic function of the
/// problem value whose infeasibility and unboundedness come back as their
/// dedicated error variants, whose any other failure carries a message,
/// and whose solution covers exactly the problem's variables. The
/// well-formedness precondition keeps out the raw non-finite data its
/// assertions reject.
#[verifier::external_body]
pub(crate) fn lp_solve(p: &microlp::Problem) -> (r: LpOutcome)
    requires
        lp_wf(*p),
    ensures
        (r is Solved) == (lp_outcome_of(*p) is Solved),
        (r is Infeasible) == (lp_outcome_of(*p) is Infeasible),
        (r is Unbounded) == (lp_outcome_of(*p) is Unbounded),
        (r is Failure) == (lp_outcome_of(*p) is Failed),
        r matches LpOutcome::Solved(s) ==> s == lp_solution_of(*p) && lp_solution_num_vars(s)
            == lp_num_vars(*p),
        r matches LpOutcome::Failure(m) ==> m@ == lp_failure_of(*p),
{
    match p.solve() {
        Ok(s) => LpOutcome::Solved(LpSolution { inner: s }),
        Err(microlp::Error::Infeasible) => LpOutcome::Infeasible,
        Err(microlp::Error::Unbounded) => LpOutcome::Unbounded,
        Err(e) => LpOutcome::Failure(format!("Solving error: {e:?}")),
    }
}

/// Relies on `microlp::Solution::var_value`: defined for every variable
/// of the solved problem, and a deterministic function of the solution
/// value and the variable's index. The solved value is brought over by a
/// saturating float-to-integer cast, which truncates toward zero; the
/// variables read this way are integer variables, so barring solver
/// rounding noise the cast is exact.
#[verifier::external_body]
pub(crate) fn lp_value_u16(s: &LpSolution, v: microlp::Variable) -> (r: u16)
    requires
        lp_var_index(v) < lp_solution_num_vars(*s),
    ensures
        r == lp_truncated_value(*s, lp_var_index(v)),
{
    *s.inner.var_value(v) as u16
}

} // verus!
