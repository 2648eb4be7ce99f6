//! The constraint-to-optimization compiler, solver invocation and failure
//! classification, and the solution extractor.
//!
//! For every product occurrence the compiler allocates one continuous
//! "grams" variable and one integer "unit count" variable, tied by the
//! equality `unit_count * amount - grams * divider = 0`, so the solved
//! grams equal `unit_count * amount / divider` exactly. Nutrient bounds
//! become linear inequalities over the grams variables of every leaf in
//! scope. All coefficients are exact integers (fixed-point hundredths),
//! which scales each constraint by a positive constant and so leaves the
//! feasible set and the optimum unchanged.
use vstd::prelude::*;

use crate::constraints::DayMealPlanConstraint;
use crate::constraints::MealConstraint;
use crate::constraints::NutrientConstraint;
use crate::constraints::ProductConstraint;
use crate::lp::LpOutcome;
use crate::lp::LpOutcomeKind;
use crate::lp::LpRelation;
use crate::lp::LpSolution;
use crate::lp::MinOrMax;
use crate::lp::lp_add_constraint;
use crate::lp::lp_add_integer_var;
use crate::lp::lp_add_var;
use crate::lp::lp_bounds;
use crate::lp::lp_constraints;
use crate::lp::lp_failure_of;
use crate::lp::lp_integrality;
use crate::lp::lp_minimizes;
use crate::lp::lp_new_problem;
use crate::lp::lp_num_vars;
use crate::lp::lp_objectives;
use crate::lp::lp_outcome_of;
use crate::lp::lp_solution_num_vars;
use crate::lp::lp_solve;
use crate::lp::lp_truncated_value;
use crate::lp::lp_value_u16;
use crate::lp::lp_var_index;
use crate::lp::lp_wf;
use crate::nutrients::NutrientType;
use crate::product::Product;
use crate::units::AllowedUnitsType;
use crate::units::UnitData;

verus! {

/// A unit quantity as an exact ratio: `numerator / denominator` units,
/// where the denominator is the unit's granularity (its divider).
#[derive(Clone, Copy, Debug, PartialEq, Eq, Structural)]
pub struct Fraction {
    pub numerator: u16,
    pub denominator: u16,
}

/// A gram quantity as an exact ratio `numerator / denominator`, tied to
/// an integer unit count by construction.
#[derive(Clone, Copy, Debug, PartialEq, Eq, Structural)]
pub struct GramAmount {
    pub numerator: u32,
    pub denominator: u16,
}

/// One node of the solution tree, mirroring the input nesting.
pub enum SolutionEntry {
    Week { entries: Vec<SolutionEntry> },
    Day { name: String, entries: Vec<SolutionEntry> },
    Meal { name: String, entries: Vec<SolutionEntry> },
    Product {
        product: Product,
        amount_grams: GramAmount,
        unit: AllowedUnitsType,
        amount_unit: Fraction,
    },
}

/// A solved plan: one Week node wrapping the day produced by the call.
pub struct Solution {
    pub solution: SolutionEntry,
}

/// One product occurrence's decision variables: the continuous grams
/// variable and the integer unit-count variable, with the product data
/// the extractor needs.
struct ProductVariable {
    name: String,
    product: Product,
    unit: AllowedUnitsType,
    unit_data: UnitData,
    variable_gram: microlp::Variable,
    variable_unit_count: microlp::Variable,
}

/// A node of the variable tree: a leaf per product occurrence, a
/// subcontainer per meal or day scope.
enum ProductEntry {
    Variable(ProductVariable),
    Subcontainer(ProductsContainer),
}

struct ProductsContainer {
    name: String,
    inner: Vec<ProductEntry>,
}

/// The compiler and extractor around one exclusively-owned problem
/// instance; build it fresh for each solve. The raw problem is public so
/// a caller can extend it directly before solving, as the
/// unbounded-objective scenario does.
pub struct ConstraintsSolver {
    pub problem: microlp::Problem,
    variables: ProductsContainer,
    nutrient_to_optimize: NutrientType,
}

// ---------------------------------------------------------------------
// Specification: the flattened leaves of a variable tree, their variable
// bookkeeping, and the shape the extractor relies on.
// ---------------------------------------------------------------------
/// The leaves of one entry, in traversal order.
spec fn entry_leaves(e: ProductEntry) -> Seq<ProductVariable>
    decreases e,
{
    match e {
        ProductEntry::Variable(v) => seq![v],
        ProductEntry::Subcontainer(c) => entries_leaves(c.inner@),
    }
}

/// The leaves of a forest of entries, in traversal order.
spec fn entries_leaves(s: Seq<ProductEntry>) -> Seq<ProductVariable>
    decreases s,
{
    if s.len() == 0 {
        seq![]
    } else {
        entries_leaves(s.drop_last()) + entry_leaves(s.last())
    }
}

spec fn gidx(v: ProductVariable) -> nat {
    lp_var_index(v.variable_gram)
}

spec fn uidx(v: ProductVariable) -> nat {
    lp_var_index(v.variable_unit_count)
}

/// One leaf's own bookkeeping: its unit-count variable directly follows
/// its grams variable, its product is well-formed, and its stored
/// conversion rule is the one its product carries for its unit.
spec fn leaf_ok(v: ProductVariable) -> bool {
    &&& uidx(v) == gidx(v) + 1
    &&& v.product.wf()
    &&& v.product.allowed_units.spec_get(v.unit) == Some(v.unit_data)
}

/// A run of leaves laid out consecutively from a base index: leaf `k`
/// owns variables `base + 2k` (grams) and `base + 2k + 1` (unit count),
/// so all leaf variables are pairwise distinct.
spec fn leaves_wf(s: Seq<ProductVariable>, base: int) -> bool {
    forall|k: int| 0 <= k < s.len() ==> leaf_ok(#[trigger] s[k]) && gidx(s[k]) == base + 2 * k
}

/// A meal container whose entries are all leaves, each matching the
/// meal's product constraints in order; leaf `j` owns the variable pair
/// at index `base + 2j`.
spec fn meal_tree_matches(e: ProductEntry, name: String, mc: MealConstraint, base: int) -> bool {
    match e {
        ProductEntry::Subcontainer(c) => {
            &&& c.name@ == name@
            &&& c.inner@.len() == mc.products@.len()
            &&& forall|j: int|
                0 <= j < c.inner@.len() ==> match #[trigger] c.inner@[j] {
                    ProductEntry::Variable(v) => leaf_ok(v) && gidx(v) == base + 2 * j
                        && leaf_matches(v, mc.products@[j]),
                    _ => false,
                }
        },
        _ => false,
    }
}

/// A leaf carries exactly its constraint's product and unit.
spec fn leaf_matches(v: ProductVariable, pc: ProductConstraint) -> bool {
    v.product == *pc.food && v.unit == pc.unit
}

/// A day's containers mirror the plan's meals in declaration order; the
/// leaf variable pairs are allocated in traversal order from index zero,
/// two per product occurrence.
spec fn day_tree_matches(entries: Seq<ProductEntry>, meals: Seq<(String, MealConstraint)>) -> bool {
    &&& entries.len() == meals.len()
    &&& forall|i: int|
        0 <= i < entries.len() ==> meal_tree_matches(
            #[trigger] entries[i],
            meals[i].0,
            meals[i].1,
            2 * plan_products_before(meals, i),
        )
}

// ---------------------------------------------------------------------
// Specification: what the public contract states about a solution tree.
// ---------------------------------------------------------------------
/// The per-100g coefficient a product contributes for a nutrient: its
/// stored amount, or zero when a micro nutrient is absent.
pub open spec fn nutrient_coeff(p: Product, nutrient: NutrientType) -> int {
    match p.spec_nutrient_amount(nutrient) {
        Some(v) => v,
        None => 0,
    }
}

/// How many product occurrences the meals before meal `i` hold; their
/// decision variables are allocated in this order, two per occurrence.
pub open spec fn plan_products_before(meals: Seq<(String, MealConstraint)>, i: int) -> int
    decreases i,
{
    if i <= 0 {
        0
    } else {
        plan_products_before(meals, i - 1) + meals[i - 1].1.products@.len()
    }
}

/// A solved product node mirrors its constraint: same product, same
/// requested unit, the fraction's denominator is the unit's divider, its
/// numerator is the solution's value for the occurrence's unit-count
/// variable truncated to 16 bits, and the gram amount is
/// `unit_count * amount / divider` as an exact ratio.
pub open spec fn product_entry_matches(
    sol: SolutionEntry,
    pc: ProductConstraint,
    s: LpSolution,
    unit_var_index: int,
) -> bool {
    match sol {
        SolutionEntry::Product { product, amount_grams, unit, amount_unit } => {
            &&& product == *pc.food
            &&& unit == pc.unit
            &&& amount_unit.numerator == lp_truncated_value(s, unit_var_index as nat)
            &&& match pc.food.allowed_units.spec_get(pc.unit) {
                Some(ud) => {
                    &&& amount_unit.denominator == ud.divider
                    &&& amount_grams.denominator == ud.divider
                    &&& amount_grams.numerator == amount_unit.numerator * ud.amount
                },
                None => false,
            }
        },
        _ => false,
    }
}

/// A solved meal node carries the meal's name and one product node per
/// product constraint, in declaration order; `base` counts the product
/// occurrences of the meals before this one.
pub open spec fn meal_entry_matches(
    sol: SolutionEntry,
    name: Seq<char>,
    mc: MealConstraint,
    s: LpSolution,
    base: int,
) -> bool {
    match sol {
        SolutionEntry::Meal { name: n, entries } => {
            &&& n@ == name
            &&& entries@.len() == mc.products@.len()
            &&& forall|j: int|
                0 <= j < entries@.len() ==> product_entry_matches(
                    #[trigger] entries@[j],
                    mc.products@[j],
                    s,
                    2 * (base + j) + 1,
                )
        },
        _ => false,
    }
}

/// The whole solution mirrors the plan against one solver solution `s`:
/// one Week node around one Day node of the given name, whose meal nodes
/// mirror the plan's meals in declaration order and whose product values
/// are read from `s` in allocation order.
pub open spec fn solution_matches_plan(
    sol: SolutionEntry,
    day_name: Seq<char>,
    day: DayMealPlanConstraint,
    s: LpSolution,
) -> bool {
    match sol {
        SolutionEntry::Week { entries } => {
            &&& entries@.len() == 1
            &&& match entries@[0] {
                SolutionEntry::Day { name, entries: meal_entries } => {
                    &&& name@ == day_name
                    &&& meal_entries@.len() == day.meals.entries@.len()
                    &&& forall|i: int|
                        0 <= i < meal_entries@.len() ==> meal_entry_matches(
                            #[trigger] meal_entries@[i],
                            day.meals.entries@[i].0@,
                            day.meals.entries@[i].1,
                            s,
                            plan_products_before(day.meals.entries@, i),
                        )
                },
                _ => false,
            }
        },
        _ => false,
    }
}

/// Every product occurrence in the plan is a validated constraint whose
/// product record is well-formed.
pub open spec fn meal_products_ok(mc: MealConstraint) -> bool {
    forall|j: int|
        0 <= j < mc.products@.len() ==> (#[trigger] mc.products@[j]).valid()
            && mc.products@[j].food.wf()
}

pub open spec fn plan_products_ok(day: DayMealPlanConstraint) -> bool {
    forall|i: int|
        0 <= i < day.meals.entries@.len() ==> meal_products_ok(
            (#[trigger] day.meals.entries@[i]).1,
        )
}

// ---------------------------------------------------------------------
// Proof helpers over the flattened leaves.
// ---------------------------------------------------------------------
proof fn lemma_leaves_push(s: Seq<ProductEntry>, e: ProductEntry)
    ensures
        entries_leaves(s.push(e)) == entries_leaves(s) + entry_leaves(e),
{
    assert(s.push(e).drop_last() =~= s);
    assert(s.push(e).last() == e);
}

proof fn lemma_leaves_wf_concat(s1: Seq<ProductVariable>, s2: Seq<ProductVariable>, base: int)
    requires
        leaves_wf(s1, base),
        leaves_wf(s2, base + 2 * s1.len()),
    ensures
        leaves_wf(s1 + s2, base),
{
    let s = s1 + s2;
    assert forall|k: int|
        0 <= k < s.len() implies leaf_ok(#[trigger] s[k]) && gidx(s[k]) == base + 2 * k by {
        if k < s1.len() {
            assert(s[k] == s1[k]);
        } else {
            assert(s[k] == s2[k - s1.len()]);
        }
    }
}

/// The leaf count of a prefix of the meals grows with the prefix.
proof fn lemma_ppb_mono(meals: Seq<(String, MealConstraint)>, a: int, b: int)
    requires
        0 <= a <= b,
    ensures
        plan_products_before(meals, a) <= plan_products_before(meals, b),
    decreases b - a,
{
    if a < b {
        lemma_ppb_mono(meals, a, b - 1);
    }
}

proof fn lemma_leaves_take_succ(s: Seq<ProductEntry>, i: int)
    requires
        0 <= i < s.len(),
    ensures
        entries_leaves(s.take(i + 1)) == entries_leaves(s.take(i)) + entry_leaves(s[i]),
{
    assert(s.take(i + 1).drop_last() =~= s.take(i));
    assert(s.take(i + 1).last() == s[i]);
}

/// The leaves of a prefix of a forest are a prefix of the forest's
/// leaves.
proof fn lemma_leaves_take_prefix(s: Seq<ProductEntry>, i: int)
    requires
        0 <= i <= s.len(),
    ensures
        entries_leaves(s.take(i)).len() <= entries_leaves(s).len(),
        forall|k: int|
            0 <= k < entries_leaves(s.take(i)).len() ==> entries_leaves(s.take(i))[k]
                == entries_leaves(s)[k],
    decreases s.len() - i,
{
    if i == s.len() {
        assert(s.take(i) =~= s);
    } else {
        lemma_leaves_take_succ(s, i);
        lemma_leaves_take_prefix(s, i + 1);
    }
}

/// One aggregation term stands for one leaf: it names the leaf's grams
/// variable and carries the per-100g amount of the nutrient the leaf's
/// product contributes (zero when absent).
spec fn term_for(t: (microlp::Variable, i64), leaf: ProductVariable, nutrient: NutrientType) -> bool {
    lp_var_index(t.0) == gidx(leaf) && t.1 == nutrient_coeff(leaf.product, nutrient)
}

/// The grams bounds a product constraint compiles to: its bounds in
/// grams, defaulting to `[0, 65535]`.
pub open spec fn grams_lower_bound(pc: ProductConstraint) -> int {
    match pc.low_bound {
        Some(b) => b as int,
        None => 0,
    }
}

pub open spec fn grams_upper_bound(pc: ProductConstraint) -> int {
    match pc.up_bound {
        Some(b) => b as int,
        None => 65535,
    }
}

/// The equality tying one leaf's variables:
/// `unit_count * amount - grams * divider = 0`.
spec fn tie_terms(v: ProductVariable) -> Seq<(nat, int)> {
    seq![(uidx(v), v.unit_data.amount as int), (gidx(v), -(v.unit_data.divider as int))]
}

/// The aggregation terms one nutrient bound compiles to: each leaf's
/// grams variable with its product's per-100g amount of the nutrient.
spec fn nutrient_terms(s: Seq<ProductVariable>, nutrient: NutrientType) -> Seq<(nat, int)> {
    s.map_values(|v: ProductVariable| (gidx(v), nutrient_coeff(v.product, nutrient)))
}

/// The lower bound a nutrient constraint compiles to, scaled: zero when
/// absent, as the aggregation always carries its `>=` side.
pub open spec fn nutrient_min_rhs(nc: NutrientConstraint) -> int {
    match nc.min {
        Some(m) => m * 100,
        None => 0,
    }
}

/// Collects one aggregation term per leaf under one entry, in traversal
/// order.
#[verifier::loop_isolation(false)]
fn collect_entry_terms(e: &ProductEntry, nutrient: NutrientType) -> (r: Vec<
    (microlp::Variable, i64),
>)
    requires
        forall|k: int|
            0 <= k < entry_leaves(*e).len() ==> (#[trigger] entry_leaves(*e)[k]).product.wf(),
    ensures
        r@.len() == entry_leaves(*e).len(),
        forall|k: int|
            0 <= k < entry_leaves(*e).len() ==> term_for(
                #[trigger] r@[k],
                entry_leaves(*e)[k],
                nutrient,
            ),
    decreases *e,
{
    match e {
        ProductEntry::Variable(v) => {
            proof {
                assert(entry_leaves(*e) =~= seq![*v]);
                assert(entry_leaves(*e)[0] == *v);
            }
            let coeff: i64 = match v.product.get_nutrient_amount(nutrient) {
                Some(a) => a as i64,
                None => 0,
            };
            let mut r: Vec<(microlp::Variable, i64)> = Vec::new();
            r.push((v.variable_gram, coeff));
            r
        },
        ProductEntry::Subcontainer(c) => {
            proof {
                assert(entry_leaves(*e) == entries_leaves(c.inner@));
                assert(c.inner@.take(0) =~= Seq::<ProductEntry>::empty());
                assert(entries_leaves(c.inner@.take(0)).len() == 0);
            }
            let n = c.inner.len();
            let mut r: Vec<(microlp::Variable, i64)> = Vec::new();
            for i in 0..n
                invariant
                    n == c.inner@.len(),
                    forall|k: int|
                        0 <= k < entries_leaves(c.inner@).len() ==> (#[trigger] entries_leaves(
                            c.inner@,
                        )[k]).product.wf(),
                    r@.len() == entries_leaves(c.inner@.take(i as int)).len(),
                    forall|k: int|
                        0 <= k < entries_leaves(c.inner@.take(i as int)).len() ==> term_for(
                            #[trigger] r@[k],
                            entries_leaves(c.inner@.take(i as int))[k],
                            nutrient,
                        ),
            {
                let entry = &c.inner[i];
                let ghost pre_len = entries_leaves(c.inner@.take(i as int)).len() as int;
                proof {
                    assert(*entry == c.inner@[i as int]);
                    lemma_leaves_take_succ(c.inner@, i as int);
                    lemma_leaves_take_prefix(c.inner@, i as int + 1);
                    assert forall|k: int|
                        0 <= k < entry_leaves(*entry).len() implies (#[trigger] entry_leaves(
                        *entry,
                    )[k]).product.wf() by {
                        assert(entry_leaves(*entry)[k] == entries_leaves(
                            c.inner@.take(i as int + 1),
                        )[pre_len + k]);
                        assert(entry_leaves(*entry)[k] == entries_leaves(c.inner@)[pre_len + k]);
                    }
                    assert(decreases_to!(*e => e->Subcontainer_0));
                    assert(e->Subcontainer_0 == *c);
                    assert(decreases_to!(c.inner => c.inner[i as int]));
                    assert(decreases_to!(*e => c.inner[i as int]));
                }
                let mut part = collect_entry_terms(entry, nutrient);
                let ghost part0 = part@;
                let ghost r_before = r@;
                r.append(&mut part);
                proof {
                    assert(r@.len() == entries_leaves(c.inner@.take(i as int + 1)).len());
                    assert forall|k: int|
                        0 <= k < entries_leaves(c.inner@.take(i as int + 1)).len() implies term_for(
                        #[trigger] r@[k],
                        entries_leaves(c.inner@.take(i as int + 1))[k],
                        nutrient,
                    ) by {
                        if k < pre_len {
                            assert(entries_leaves(c.inner@.take(i as int + 1))[k] == entries_leaves(
                                c.inner@.take(i as int),
                            )[k]);
                            assert(r@[k] == r_before[k]);
                            assert(term_for(
                                r_before[k],
                                entries_leaves(c.inner@.take(i as int))[k],
                                nutrient,
                            ));
                        } else {
                            assert(entries_leaves(c.inner@.take(i as int + 1))[k] == entry_leaves(
                                c.inner@[i as int],
                            )[k - pre_len]);
                            assert(term_for(
                                part0[k - pre_len],
                                entry_leaves(c.inner@[i as int])[k - pre_len],
                                nutrient,
                            ));
                            assert(r@[k] == part0[k - pre_len]);
                        }
                    }
                }
            }
            proof {
                assert(c.inner@.take(n as int) =~= c.inner@);
            }
            r
        },
    }
}

// ---------------------------------------------------------------------
// The compiler itself.
// ---------------------------------------------------------------------
impl ConstraintsSolver {
    /// No variable tree has been built yet and the problem holds no
    /// variables: the solver is ready for one `solve_day` call.
    pub closed spec fn is_fresh(self) -> bool {
        &&& self.variables.inner@.len() == 0
        &&& lp_num_vars(self.problem) == 0
        &&& lp_wf(self.problem)
    }

    /// The nutrient whose total the objective minimizes or maximizes.
    pub closed spec fn spec_nutrient_to_optimize(self) -> NutrientType {
        self.nutrient_to_optimize
    }

    /// The underlying optimization problem, for stating what was handed
    /// to the solver.
    pub closed spec fn spec_problem(self) -> microlp::Problem {
        self.problem
    }

    /// A fresh solver: an empty problem in the requested direction, and
    /// the nutrient the objective will range over.
    pub fn new(min_or_max: MinOrMax, nutrient_to_optimize: NutrientType) -> (r: ConstraintsSolver)
        ensures
            r.is_fresh(),
            r.spec_nutrient_to_optimize() == nutrient_to_optimize,
            lp_minimizes(r.spec_problem()) == (min_or_max is Min),
    {
        ConstraintsSolver {
            problem: lp_new_problem(min_or_max),
            variables: ProductsContainer { name: String::from_str("root"), inner: Vec::new() },
            nutrient_to_optimize,
        }
    }

    /// Allocates the two decision variables for one product occurrence:
    /// the continuous grams variable, bounded by the constraint's bounds
    /// (in grams, defaulting to `[0, 65535]`), carrying the objective
    /// coefficient; and the integer unit-count variable in `[0, 65535]`;
    /// then ties them with `unit_count * amount - grams * divider = 0`.
    fn add_product_constraints(&mut self, product: &Product, product_constraint: &ProductConstraint) -> (v: ProductVariable)
        requires
            product_constraint.valid(),
            product_constraint.food.wf(),
            *product == *product_constraint.food,
            lp_wf(old(self).problem),
        ensures
            lp_num_vars(final(self).problem) == lp_num_vars(old(self).problem) + 2,
            final(self).variables == old(self).variables,
            final(self).nutrient_to_optimize == old(self).nutrient_to_optimize,
            leaf_ok(v),
            leaf_matches(v, *product_constraint),
            gidx(v) == lp_num_vars(old(self).problem),
            lp_objectives(final(self).problem) == lp_objectives(old(self).problem).push(
                nutrient_coeff(*product_constraint.food, old(self).nutrient_to_optimize),
            ).push(0),
            lp_bounds(final(self).problem) == lp_bounds(old(self).problem).push(
                (grams_lower_bound(*product_constraint), grams_upper_bound(*product_constraint)),
            ).push((0, 65535)),
            lp_integrality(final(self).problem) == lp_integrality(old(self).problem).push(
                false,
            ).push(true),
            lp_constraints(final(self).problem) == lp_constraints(old(self).problem).push(
                (tie_terms(v), LpRelation::Eq, 0),
            ),
            lp_minimizes(final(self).problem) == lp_minimizes(old(self).problem),
            lp_wf(final(self).problem),
    {
        let coeff_opt = product.get_nutrient_amount(self.nutrient_to_optimize);
        let obj_coeff: i64 = match coeff_opt {
            Some(a) => a as i64,
            None => 0,
        };

        let low: i64 = match product_constraint.low_bound() {
            Some(b) => b as i64,
            None => 0,
        };
        let high: i64 = match product_constraint.up_bound() {
            Some(b) => b as i64,
            None => 65535,
        };

        let variable_gram = lp_add_var(&mut self.problem, obj_coeff, low, high);
        let variable_unit_count = lp_add_integer_var(&mut self.problem, 0, 0, 65535);

        let unit = product_constraint.unit();
        let unit_data = match product.allowed_units.get(unit) {
            Some(ud) => ud,
            None => vstd::pervasive::unreached(),
        };

        let neg_divider: i64 = -(unit_data.divider as i64);
        let terms: Vec<(microlp::Variable, i64)> = vec![
            (variable_unit_count, unit_data.amount as i64),
            (variable_gram, neg_divider),
        ];
        lp_add_constraint(&mut self.problem, &terms, LpRelation::Eq, 0);

        let result = ProductVariable {
            name: product.id(),
            product: product.duplicate(),
            unit,
            unit_data,
            variable_gram,
            variable_unit_count,
        };
        proof {
            assert(terms@.map_values(
                |t: (microlp::Variable, i64)| (lp_var_index(t.0), t.1 as int),
            ) =~= tie_terms(result));
        }
        result
    }

    /// Emits the inequalities for one nutrient bound over every leaf in
    /// scope: the aggregated amount (grams times per-100g amount over
    /// 100) must be at least the lower bound (zero when absent) and, when
    /// an upper bound is present, at most that bound. Both sides are
    /// scaled by the same positive constant to stay integral.
    fn add_nutrient_constraints(
        &mut self,
        nutrient_constr: &NutrientConstraint,
        products: &Vec<ProductEntry>,
        Ghost(base): Ghost<int>,
    )
        requires
            lp_wf(old(self).problem),
            0 <= base,
            leaves_wf(entries_leaves(products@), base),
            base + 2 * entries_leaves(products@).len() <= lp_num_vars(old(self).problem),
        ensures
            lp_num_vars(final(self).problem) == lp_num_vars(old(self).problem),
            lp_objectives(final(self).problem) == lp_objectives(old(self).problem),
            lp_bounds(final(self).problem) == lp_bounds(old(self).problem),
            lp_integrality(final(self).problem) == lp_integrality(old(self).problem),
            lp_minimizes(final(self).problem) == lp_minimizes(old(self).problem),
            lp_wf(final(self).problem),
            final(self).variables == old(self).variables,
            final(self).nutrient_to_optimize == old(self).nutrient_to_optimize,
            nutrient_constr.max is None ==> lp_constraints(final(self).problem) == lp_constraints(
                old(self).problem,
            ).push(
                (
                    nutrient_terms(entries_leaves(products@), nutrient_constr.element),
                    LpRelation::Ge,
                    nutrient_min_rhs(*nutrient_constr),
                ),
            ),
            nutrient_constr.max matches Some(mx) ==> lp_constraints(final(self).problem)
                == lp_constraints(old(self).problem).push(
                (
                    nutrient_terms(entries_leaves(products@), nutrient_constr.element),
                    LpRelation::Ge,
                    nutrient_min_rhs(*nutrient_constr),
                ),
            ).push(
                (
                    nutrient_terms(entries_leaves(products@), nutrient_constr.element),
                    LpRelation::Le,
                    mx * 100,
                ),
            ),
    {
        let mut terms: Vec<(microlp::Variable, i64)> = Vec::new();
        let n = products.len();
        proof {
            assert(products@.take(0) =~= Seq::<ProductEntry>::empty());
            assert(entries_leaves(products@.take(0)).len() == 0);
        }
        for i in 0..n
            invariant
                n == products@.len(),
                leaves_wf(entries_leaves(products@), base),
                *self == *old(self),
                terms@.len() == entries_leaves(products@.take(i as int)).len(),
                forall|k: int|
                    0 <= k < entries_leaves(products@.take(i as int)).len() ==> term_for(
                        #[trigger] terms@[k],
                        entries_leaves(products@.take(i as int))[k],
                        nutrient_constr.element,
                    ),
        {
            let entry = &products[i];
            let ghost pre_len = entries_leaves(products@.take(i as int)).len() as int;
            proof {
                assert(*entry == products@[i as int]);
                lemma_leaves_take_succ(products@, i as int);
                lemma_leaves_take_prefix(products@, i as int + 1);
                assert forall|k: int|
                    0 <= k < entry_leaves(*entry).len() implies (#[trigger] entry_leaves(
                    *entry,
                )[k]).product.wf() by {
                    assert(entry_leaves(*entry)[k] == entries_leaves(
                        products@.take(i as int + 1),
                    )[pre_len + k]);
                    assert(entry_leaves(*entry)[k] == entries_leaves(products@)[pre_len + k]);
                    assert(leaf_ok(entries_leaves(products@)[pre_len + k]));
                }
            }
            let mut part = collect_entry_terms(entry, nutrient_constr.element);
            let ghost part0 = part@;
            let ghost terms_before = terms@;
            terms.append(&mut part);
            proof {
                assert forall|k: int|
                    0 <= k < entries_leaves(products@.take(i as int + 1)).len() implies term_for(
                    #[trigger] terms@[k],
                    entries_leaves(products@.take(i as int + 1))[k],
                    nutrient_constr.element,
                ) by {
                    if k < pre_len {
                        assert(entries_leaves(products@.take(i as int + 1))[k] == entries_leaves(
                            products@.take(i as int),
                        )[k]);
                        assert(terms@[k] == terms_before[k]);
                        assert(term_for(
                            terms_before[k],
                            entries_leaves(products@.take(i as int))[k],
                            nutrient_constr.element,
                        ));
                    } else {
                        assert(entries_leaves(products@.take(i as int + 1))[k] == entry_leaves(
                            products@[i as int],
                        )[k - pre_len]);
                        assert(term_for(
                            part0[k - pre_len],
                            entry_leaves(products@[i as int])[k - pre_len],
                            nutrient_constr.element,
                        ));
                        assert(terms@[k] == part0[k - pre_len]);
                    }
                }
            }
        }
        proof {
            assert(products@.take(n as int) =~= products@);
            assert forall|k: int| 0 <= k < terms@.len() implies lp_var_index(
                #[trigger] terms@[k].0,
            ) < lp_num_vars(self.problem) by {
                assert(term_for(
                    terms@[k],
                    entries_leaves(products@)[k],
                    nutrient_constr.element,
                ));
                assert(gidx(entries_leaves(products@)[k]) == base + 2 * k);
            }
            assert forall|a: int, b: int| 0 <= a < b < terms@.len() implies lp_var_index(
                #[trigger] terms@[a].0,
            ) != lp_var_index(#[trigger] terms@[b].0) by {
                assert(term_for(
                    terms@[a],
                    entries_leaves(products@)[a],
                    nutrient_constr.element,
                ));
                assert(term_for(
                    terms@[b],
                    entries_leaves(products@)[b],
                    nutrient_constr.element,
                ));
                assert(gidx(entries_leaves(products@)[a]) == base + 2 * a);
                assert(gidx(entries_leaves(products@)[b]) == base + 2 * b);
            }
            assert forall|k: int|
                0 <= k < terms@.len() implies #[trigger] nutrient_terms(
                entries_leaves(products@),
                nutrient_constr.element,
            )[k] == (lp_var_index(terms@[k].0), terms@[k].1 as int) by {
                assert(term_for(
                    terms@[k],
                    entries_leaves(products@)[k],
                    nutrient_constr.element,
                ));
            }
            assert(terms@.map_values(
                |t: (microlp::Variable, i64)| (lp_var_index(t.0), t.1 as int),
            ) =~= nutrient_terms(entries_leaves(products@), nutrient_constr.element));
        }

        let min_rhs: i64 = match nutrient_constr.min() {
            Some(m) => (m as i64) * 100,
            None => 0,
        };
        lp_add_constraint(&mut self.problem, &terms, LpRelation::Ge, min_rhs);

        if let Some(m) = nutrient_constr.max() {
            let max_rhs: i64 = (m as i64) * 100;
            lp_add_constraint(&mut self.problem, &terms, LpRelation::Le, max_rhs);
        }
    }

    /// Compiles one meal: a leaf (with its two variables and its tying
    /// equality) for every product occurrence, then the meal-scoped
    /// nutrient bounds over exactly those leaves.
    #[verifier::loop_isolation(false)]
    fn add_meal_constraints(
        &mut self,
        meal: &MealConstraint,
        product_entries: &mut Vec<ProductEntry>,
    )
        requires
            meal_products_ok(*meal),
            old(product_entries)@.len() == 0,
            lp_wf(old(self).problem),
        ensures
            lp_num_vars(final(self).problem) == lp_num_vars(old(self).problem) + 2
                * meal.products@.len(),
            lp_minimizes(final(self).problem) == lp_minimizes(old(self).problem),
            lp_wf(final(self).problem),
            final(self).variables == old(self).variables,
            final(self).nutrient_to_optimize == old(self).nutrient_to_optimize,
            final(product_entries)@.len() == meal.products@.len(),
            entries_leaves(final(product_entries)@).len() == meal.products@.len(),
            forall|j: int|
                0 <= j < meal.products@.len() ==> match #[trigger] final(product_entries)@[j] {
                    ProductEntry::Variable(v) => leaf_ok(v) && gidx(v) == lp_num_vars(
                        old(self).problem,
                    ) + 2 * j && leaf_matches(v, meal.products@[j]),
                    _ => false,
                },
            leaves_wf(
                entries_leaves(final(product_entries)@),
                lp_num_vars(old(self).problem) as int,
            ),
    {
        let ghost nv0 = lp_num_vars(old(self).problem) as int;
        proof {
            assert(entries_leaves(old(product_entries)@) =~= Seq::<ProductVariable>::empty());
        }
        let n = meal.products.len();
        for j in 0..n
            invariant
                n == meal.products@.len(),
                self.variables == old(self).variables,
                self.nutrient_to_optimize == old(self).nutrient_to_optimize,
                lp_num_vars(self.problem) == nv0 + 2 * j,
                lp_minimizes(self.problem) == lp_minimizes(old(self).problem),
                lp_wf(self.problem),
                product_entries@.len() == j,
                entries_leaves(product_entries@).len() == j,
                forall|k: int|
                    0 <= k < j ==> match #[trigger] product_entries@[k] {
                        ProductEntry::Variable(v) => leaf_ok(v) && gidx(v) == nv0 + 2 * k
                            && leaf_matches(v, meal.products@[k]),
                        _ => false,
                    },
                leaves_wf(entries_leaves(product_entries@), nv0),
        {
            let pc = &meal.products[j];
            let ghost pre = entries_leaves(product_entries@);
            let v = self.add_product_constraints(pc.food(), pc);
            proof {
                assert(leaves_wf(seq![v], nv0 + 2 * (pre.len() as int)));
                lemma_leaves_wf_concat(pre, seq![v], nv0);
                lemma_leaves_push(product_entries@, ProductEntry::Variable(v));
                assert(entry_leaves(ProductEntry::Variable(v)) =~= seq![v]);
                assert(pre + seq![v] =~= entries_leaves(product_entries@) + entry_leaves(
                    ProductEntry::Variable(v),
                ));
            }
            product_entries.push(ProductEntry::Variable(v));
        }

        proof {
            assert(entries_leaves(product_entries@).len() == meal.products@.len());
        }
        let m = meal.nutrients.len();
        for idx in 0..m
            invariant
                self.variables == old(self).variables,
                self.nutrient_to_optimize == old(self).nutrient_to_optimize,
                lp_num_vars(self.problem) == nv0 + 2 * meal.products@.len(),
                lp_minimizes(self.problem) == lp_minimizes(old(self).problem),
                lp_wf(self.problem),
                product_entries@.len() == meal.products@.len(),
                entries_leaves(product_entries@).len() == meal.products@.len(),
                forall|k: int|
                    0 <= k < meal.products@.len() ==> match #[trigger] product_entries@[k] {
                        ProductEntry::Variable(v) => leaf_ok(v) && gidx(v) == nv0 + 2 * k
                            && leaf_matches(v, meal.products@[k]),
                        _ => false,
                    },
                leaves_wf(entries_leaves(product_entries@), nv0),
        {
            self.add_nutrient_constraints(&meal.nutrients[idx], product_entries, Ghost(nv0));
        }
    }

    /// Compiles the whole day: one subcontainer per meal in declaration
    /// order, then the day-scoped nutrient bounds over every leaf of
    /// every meal.
    #[verifier::loop_isolation(false)]
    fn create_day_constraints(
        &mut self,
        day_constraints: &DayMealPlanConstraint,
        product_entries: &mut Vec<ProductEntry>,
    )
        requires
            plan_products_ok(*day_constraints),
            old(product_entries)@.len() == 0,
            lp_num_vars(old(self).problem) == 0,
            lp_wf(old(self).problem),
        ensures
            final(self).variables == old(self).variables,
            final(self).nutrient_to_optimize == old(self).nutrient_to_optimize,
            lp_minimizes(final(self).problem) == lp_minimizes(old(self).problem),
            lp_wf(final(self).problem),
            day_tree_matches(final(product_entries)@, day_constraints.meals.entries@),
            lp_num_vars(final(self).problem) == 2 * plan_products_before(
                day_constraints.meals.entries@,
                day_constraints.meals.entries@.len() as int,
            ),
    {
        proof {
            assert(entries_leaves(old(product_entries)@) =~= Seq::<ProductVariable>::empty());
        }
        let ghost meals = day_constraints.meals.entries@;
        let n = day_constraints.meals.entries.len();
        for i in 0..n
            invariant
                n == day_constraints.meals.entries@.len(),
                meals == day_constraints.meals.entries@,
                self.variables == old(self).variables,
                self.nutrient_to_optimize == old(self).nutrient_to_optimize,
                lp_minimizes(self.problem) == lp_minimizes(old(self).problem),
                lp_wf(self.problem),
                product_entries@.len() == i,
                entries_leaves(product_entries@).len() == plan_products_before(meals, i as int),
                lp_num_vars(self.problem) == 2 * plan_products_before(meals, i as int),
                forall|k: int|
                    0 <= k < i ==> meal_tree_matches(
                        #[trigger] product_entries@[k],
                        meals[k].0,
                        meals[k].1,
                        2 * plan_products_before(meals, k),
                    ),
                leaves_wf(entries_leaves(product_entries@), 0),
        {
            let entry = &day_constraints.meals.entries[i];
            let mut inner: Vec<ProductEntry> = Vec::new();
            let ghost pre = entries_leaves(product_entries@);
            self.add_meal_constraints(&entry.1, &mut inner);
            let container = ProductsContainer { name: entry.0.clone(), inner };
            proof {
                assert(plan_products_before(meals, i as int + 1) == plan_products_before(
                    meals,
                    i as int,
                ) + meals[i as int].1.products@.len());
                assert(leaves_wf(entries_leaves(container.inner@), 2 * (pre.len() as int)));
                lemma_leaves_wf_concat(pre, entries_leaves(container.inner@), 0);
                lemma_leaves_push(product_entries@, ProductEntry::Subcontainer(container));
                assert(entry_leaves(ProductEntry::Subcontainer(container)) == entries_leaves(
                    container.inner@,
                ));
                assert(meal_tree_matches(
                    ProductEntry::Subcontainer(container),
                    meals[i as int].0,
                    meals[i as int].1,
                    2 * plan_products_before(meals, i as int),
                ));
            }
            product_entries.push(ProductEntry::Subcontainer(container));
        }

        let m = day_constraints.nutrients.len();
        for idx in 0..m
            invariant
                meals == day_constraints.meals.entries@,
                self.variables == old(self).variables,
                self.nutrient_to_optimize == old(self).nutrient_to_optimize,
                lp_minimizes(self.problem) == lp_minimizes(old(self).problem),
                lp_wf(self.problem),
                entries_leaves(product_entries@).len() == plan_products_before(
                    meals,
                    meals.len() as int,
                ),
                lp_num_vars(self.problem) == 2 * plan_products_before(meals, meals.len() as int),
                day_tree_matches(product_entries@, meals),
                leaves_wf(entries_leaves(product_entries@), 0),
        {
            self.add_nutrient_constraints(
                &day_constraints.nutrients[idx],
                product_entries,
                Ghost(0),
            );
        }
    }

    /// Builds the whole variable tree for one day under the given name
    /// and registers it as the single day of this solve.
    fn create_constraints(&mut self, day_constraints: &DayMealPlanConstraint, day_name: String)
        requires
            old(self).is_fresh(),
            plan_products_ok(*day_constraints),
        ensures
            final(self).nutrient_to_optimize == old(self).nutrient_to_optimize,
            lp_minimizes(final(self).problem) == lp_minimizes(old(self).problem),
            lp_wf(final(self).problem),
            lp_num_vars(final(self).problem) == 2 * plan_products_before(
                day_constraints.meals.entries@,
                day_constraints.meals.entries@.len() as int,
            ),
            final(self).variables.inner@.len() == 1,
            match final(self).variables.inner@[0] {
                ProductEntry::Subcontainer(day) => day.name@ == day_name@ && day_tree_matches(
                    day.inner@,
                    day_constraints.meals.entries@,
                ),
                _ => false,
            },
    {
        let mut day_vec: Vec<ProductEntry> = Vec::new();
        self.create_day_constraints(day_constraints, &mut day_vec);
        let container = ProductsContainer { name: day_name, inner: day_vec };
        self.variables.inner.push(ProductEntry::Subcontainer(container));
    }

    /// Reads the solved values back out of the variable tree, mirroring
    /// the input nesting: one Week node around the one day built by this
    /// solve, its meals in declaration order, and for each leaf the
    /// integer unit count (truncated to 16 bits as solved) with the exact
    /// gram amount it stands for.
    #[verifier::loop_isolation(false)]
    fn solver_solution_to_output(
        &self,
        solution: &crate::lp::LpSolution,
        Ghost(day): Ghost<DayMealPlanConstraint>,
        Ghost(dname): Ghost<Seq<char>>,
    ) -> (r: Solution)
        requires
            self.variables.inner@.len() == 1,
            match self.variables.inner@[0] {
                ProductEntry::Subcontainer(c) => c.name@ == dname && day_tree_matches(
                    c.inner@,
                    day.meals.entries@,
                ),
                _ => false,
            },
            2 * plan_products_before(day.meals.entries@, day.meals.entries@.len() as int)
                <= lp_solution_num_vars(*solution),
        ensures
            solution_matches_plan(r.solution, dname, day, *solution),
    {
        let day_container = match &self.variables.inner[0] {
            ProductEntry::Subcontainer(c) => c,
            ProductEntry::Variable(_) => vstd::pervasive::unreached(),
        };
        let mut day_entries: Vec<SolutionEntry> = Vec::new();
        let m = day_container.inner.len();
        for i in 0..m
            invariant
                m == day_container.inner@.len(),
                day_entries@.len() == i,
                forall|k: int|
                    0 <= k < i ==> meal_entry_matches(
                        #[trigger] day_entries@[k],
                        day.meals.entries@[k].0@,
                        day.meals.entries@[k].1,
                        *solution,
                        plan_products_before(day.meals.entries@, k),
                    ),
        {
            let meal_container = match &day_container.inner[i] {
                ProductEntry::Subcontainer(c) => c,
                ProductEntry::Variable(_) => vstd::pervasive::unreached(),
            };
            let ghost base = plan_products_before(day.meals.entries@, i as int);
            let mut meal_entries: Vec<SolutionEntry> = Vec::new();
            let p = meal_container.inner.len();
            for j in 0..p
                invariant
                    p == meal_container.inner@.len(),
                    base == plan_products_before(day.meals.entries@, i as int),
                    meal_entries@.len() == j,
                    forall|k: int|
                        0 <= k < j ==> product_entry_matches(
                            #[trigger] meal_entries@[k],
                            day.meals.entries@[i as int].1.products@[k],
                            *solution,
                            2 * (base + k) + 1,
                        ),
            {
                let leaf = match &meal_container.inner[j] {
                    ProductEntry::Variable(v) => v,
                    ProductEntry::Subcontainer(_) => vstd::pervasive::unreached(),
                };
                proof {
                    lemma_ppb_mono(day.meals.entries@, 0, i as int);
                    lemma_ppb_mono(day.meals.entries@, i as int + 1, day.meals.entries@.len() as int);
                    assert(plan_products_before(day.meals.entries@, i as int + 1) == base
                        + day.meals.entries@[i as int].1.products@.len());
                    assert(gidx(*leaf) == 2 * base + 2 * j);
                    assert(uidx(*leaf) == 2 * (base + j) + 1);
                    assert(lp_var_index(leaf.variable_unit_count) < lp_solution_num_vars(
                        *solution,
                    ));
                }
                let count = lp_value_u16(solution, leaf.variable_unit_count);
                proof {
                    assert((count as int) * (leaf.unit_data.amount as int) < 0x1_0000_0000) by (nonlinear_arith)
                        requires
                            count <= 0xffff,
                            leaf.unit_data.amount <= 0xffff,
                    ;
                }
                let grams_numerator: u32 = (count as u32) * (leaf.unit_data.amount as u32);
                let product_solution = SolutionEntry::Product {
                    product: leaf.product.duplicate(),
                    amount_grams: GramAmount {
                        numerator: grams_numerator,
                        denominator: leaf.unit_data.divider,
                    },
                    unit: leaf.unit,
                    amount_unit: Fraction { numerator: count, denominator: leaf.unit_data.divider },
                };
                meal_entries.push(product_solution);
            }
            let meal_solution = SolutionEntry::Meal {
                name: meal_container.name.clone(),
                entries: meal_entries,
            };
            day_entries.push(meal_solution);
        }
        let day_solution = SolutionEntry::Day {
            name: day_container.name.clone(),
            entries: day_entries,
        };
        let mut week_entries: Vec<SolutionEntry> = Vec::new();
        week_entries.push(day_solution);
        Solution { solution: SolutionEntry::Week { entries: week_entries } }
    }

    /// Compiles the day's constraints, runs the solver once, and either
    /// extracts the mirrored solution tree or classifies the failure. The
    /// result follows the compiled problem's named solve outcome exactly:
    /// a solved outcome yields the mirrored tree, an infeasible one
    /// yields exactly "Constraints are infeasible", an unbounded one
    /// exactly "Problem is unbounded", and any other failure the
    /// boundary's formatted message.
    pub fn solve_day_named(
        &mut self,
        day_constraints: &DayMealPlanConstraint,
        day_name: String,
    ) -> (r: Result<Solution, String>)
        requires
            old(self).is_fresh(),
            plan_products_ok(*day_constraints),
        ensures
            r matches Ok(sol) ==> exists|s: LpSolution|
                #[trigger] solution_matches_plan(sol.solution, day_name@, *day_constraints, s),
            (r is Ok) == (lp_outcome_of(final(self).spec_problem()) is Solved),
            lp_outcome_of(final(self).spec_problem()) is Infeasible ==> (r matches Err(m) && m@
                == "Constraints are infeasible"@),
            lp_outcome_of(final(self).spec_problem()) is Unbounded ==> (r matches Err(m) && m@
                == "Problem is unbounded"@),
            lp_outcome_of(final(self).spec_problem()) is Failed ==> (r matches Err(m) && m@
                == lp_failure_of(final(self).spec_problem())),
    {
        let ghost dname = day_name@;
        self.create_constraints(day_constraints, day_name);
        match lp_solve(&self.problem) {
            LpOutcome::Solved(s) => {
                let out = self.solver_solution_to_output(&s, Ghost(*day_constraints), Ghost(dname));
                proof {
                    assert(solution_matches_plan(out.solution, dname, *day_constraints, s));
                }
                Ok(out)
            },
            LpOutcome::Infeasible => Err(String::from_str("Constraints are infeasible")),
            LpOutcome::Unbounded => Err(String::from_str("Problem is unbounded")),
            LpOutcome::Failure(msg) => Err(msg),
        }
    }

    /// `solve_day_named` with the default single-day name.
    pub fn solve_day(&mut self, day_constraints: &DayMealPlanConstraint) -> (r: Result<
        Solution,
        String,
    >)
        requires
            old(self).is_fresh(),
            plan_products_ok(*day_constraints),
        ensures
            r matches Ok(sol) ==> exists|s: LpSolution|
                #[trigger] solution_matches_plan(sol.solution, "Day1"@, *day_constraints, s),
            (r is Ok) == (lp_outcome_of(final(self).spec_problem()) is Solved),
            lp_outcome_of(final(self).spec_problem()) is Infeasible ==> (r matches Err(m) && m@
                == "Constraints are infeasible"@),
            lp_outcome_of(final(self).spec_problem()) is Unbounded ==> (r matches Err(m) && m@
                == "Problem is unbounded"@),
            lp_outcome_of(final(self).spec_problem()) is Failed ==> (r matches Err(m) && m@
                == lp_failure_of(final(self).spec_problem())),
    {
        self.solve_day_named(day_constraints, String::from_str("Day1"))
    }
}

} // verus!
