//! The declarative constraint model: validated records describing nutrient
//! targets and product quantity bounds, nested day -> meal -> product.
//!
//! Construction is the only validation gate: `NutrientConstraint::new` and
//! `ProductConstraint::new` reject invalid records by returning nothing,
//! and no later component re-validates.
use vstd::prelude::*;

use crate::nutrients::NutrientType;
use crate::product::Product;
use crate::units::AllowedUnitsType;

verus! {

/// A target on one nutrient: optional lower and upper bounds, both in
/// fixed-point hundredths of a gram. A record only exists when neither
/// bound is negative and, with both present, the lower does not exceed
/// the upper.
#[derive(Clone, Copy, Debug, PartialEq)]
pub struct NutrientConstraint {
    pub element: NutrientType,
    pub min: Option<i32>,
    pub max: Option<i32>,
}

/// Both bounds are non-negative and ordered when both are present.
pub open spec fn nutrient_bounds_ok(min: Option<i32>, max: Option<i32>) -> bool {
    let lo_ok = match min {
        Some(lo) => lo >= 0,
        None => true,
    };
    let hi_ok = match max {
        Some(hi) => hi >= 0,
        None => true,
    };
    let ord_ok = match (min, max) {
        (Some(lo), Some(hi)) => lo <= hi,
        _ => true,
    };
    lo_ok && hi_ok && ord_ok
}

impl NutrientConstraint {
    pub open spec fn valid(self) -> bool {
        nutrient_bounds_ok(self.min, self.max)
    }

    /// Builds a validated nutrient constraint: returns nothing when either
    /// bound is negative or the bounds are out of order; equal bounds are
    /// accepted.
    pub fn new(element: NutrientType, min: Option<i32>, max: Option<i32>) -> (r: Option<
        NutrientConstraint,
    >)
        ensures
            r is Some <==> nutrient_bounds_ok(min, max),
            r matches Some(c) ==> c == (NutrientConstraint { element, min, max }) && c.valid(),
    {
        if let Some(lo) = min {
            if lo < 0 {
                return None;
            }
        }
        if let Some(hi) = max {
            if hi < 0 {
                return None;
            }
        }
        if let (Some(lo), Some(hi)) = (min, max) {
            if lo > hi {
                return None;
            }
        }
        Some(NutrientConstraint { element, min, max })
    }

    pub fn element(&self) -> (r: NutrientType)
        ensures
            r == self.element,
    {
        self.element
    }

    pub fn min(&self) -> (r: Option<i32>)
        ensures
            r == self.min,
    {
        self.min
    }

    pub fn max(&self) -> (r: Option<i32>)
        ensures
            r == self.max,
    {
        self.max
    }

    /// Replaces this record wholesale with another validated record.
    pub fn update(&mut self, other: NutrientConstraint)
        ensures
            *final(self) == other,
    {
        *self = other;
    }
}

/// A quantity bound on one product occurrence: optional low and high
/// bounds in grams, and the unit the quantity is displayed in. A record
/// only exists when the unit is in the product's allowed-unit table and
/// the bounds are ordered.
#[derive(Clone, Debug, PartialEq)]
pub struct ProductConstraint {
    pub food: Box<Product>,
    pub low_bound: Option<u16>,
    pub up_bound: Option<u16>,
    pub unit: AllowedUnitsType,
}

/// The unit is allowed for the product and the bounds are ordered when
/// both are present.
pub open spec fn product_constraint_ok(
    food: Product,
    low_bound: Option<u16>,
    up_bound: Option<u16>,
    unit: AllowedUnitsType,
) -> bool {
    let ord_ok = match (low_bound, up_bound) {
        (Some(lo), Some(hi)) => lo <= hi,
        _ => true,
    };
    food.allowed_units.spec_get(unit) is Some && ord_ok
}

impl ProductConstraint {
    pub open spec fn valid(self) -> bool {
        product_constraint_ok(*self.food, self.low_bound, self.up_bound, self.unit)
    }

    /// Builds a validated product constraint: returns nothing when the
    /// unit is absent from the product's allowed-unit table, or when both
    /// bounds are given out of order.
    pub fn new(
        food: Box<Product>,
        low_bound: Option<u16>,
        up_bound: Option<u16>,
        unit: AllowedUnitsType,
    ) -> (r: Option<ProductConstraint>)
        ensures
            r is Some <==> product_constraint_ok(*food, low_bound, up_bound, unit),
            r matches Some(c) ==> c == (ProductConstraint { food, low_bound, up_bound, unit })
                && c.valid(),
    {
        if !food.allowed_units.contains_key(unit) {
            return None;
        }
        if let (Some(lo), Some(hi)) = (low_bound, up_bound) {
            if lo > hi {
                return None;
            }
        }
        Some(ProductConstraint { food, low_bound, up_bound, unit })
    }

    pub fn food(&self) -> (r: &Product)
        ensures
            r == &*self.food,
    {
        &self.food
    }

    pub fn low_bound(&self) -> (r: Option<u16>)
        ensures
            r == self.low_bound,
    {
        self.low_bound
    }

    pub fn up_bound(&self) -> (r: Option<u16>)
        ensures
            r == self.up_bound,
    {
        self.up_bound
    }

    pub fn unit(&self) -> (r: AllowedUnitsType)
        ensures
            r == self.unit,
    {
        self.unit
    }

    /// Replaces this record wholesale with another validated record.
    pub fn update(&mut self, other: ProductConstraint)
        ensures
            *final(self) == other,
    {
        *self = other;
    }
}

/// The constraints scoped to one meal: its product occurrences and its
/// meal-level nutrient targets.
pub struct MealConstraint {
    pub products: Vec<ProductConstraint>,
    pub nutrients: Vec<NutrientConstraint>,
}

/// A name-keyed collection of meals that remembers insertion order;
/// names are unique.
pub struct MealsByName {
    pub entries: Vec<(String, MealConstraint)>,
}

impl MealsByName {
    /// Names are pairwise distinct.
    pub open spec fn wf(self) -> bool {
        forall|i: int, j: int|
            0 <= i < j < self.entries@.len() ==> self.entries@[i].0@ != self.entries@[j].0@
    }

    /// Whether some entry carries this name.
    pub open spec fn spec_contains(self, name: Seq<char>) -> bool {
        exists|i: int| 0 <= i < self.entries@.len() && self.entries@[i].0@ == name
    }

    pub fn new() -> (r: MealsByName)
        ensures
            r.entries@.len() == 0,
            r.wf(),
    {
        MealsByName { entries: Vec::new() }
    }

    pub fn len(&self) -> (r: usize)
        ensures
            r == self.entries@.len(),
    {
        self.entries.len()
    }

    pub fn contains_key(&self, name: &String) -> (r: bool)
        ensures
            r == self.spec_contains(name@),
    {
        let n = self.entries.len();
        for i in 0..n
            invariant
                n == self.entries@.len(),
                forall|j: int| 0 <= j < i ==> self.entries@[j].0@ != name@,
        {
            if self.entries[i].0 == *name {
                return true;
            }
        }
        false
    }

    /// Adds a meal under a name, replacing the meal already under that
    /// name if there is one; a new name goes to the end.
    pub fn insert(&mut self, name: String, meal: MealConstraint)
        requires
            old(self).wf(),
        ensures
            final(self).wf(),
            final(self).spec_contains(name@),
            forall|n: Seq<char>|
                n != name@ ==> (final(self).spec_contains(n) <==> old(self).spec_contains(n)),
            !old(self).spec_contains(name@) ==> final(self).entries@ == old(self).entries@.push(
                (name, meal),
            ),
            old(self).spec_contains(name@) ==> exists|i: int|
                0 <= i < old(self).entries@.len() && old(self).entries@[i].0@ == name@
                    && final(self).entries@ == old(self).entries@.update(i, (name, meal)),
    {
        let n = self.entries.len();
        for i in 0..n
            invariant
                n == self.entries@.len(),
                self.wf(),
                *self == *old(self),
                forall|j: int| 0 <= j < i ==> self.entries@[j].0@ != name@,
        {
            if self.entries[i].0 == name {
                let ghost prev = *self;
                self.entries.set(i, (name, meal));
                proof {
                    assert(self.entries@[i as int].0@ == name@);
                    assert(forall|k: int|
                        0 <= k < self.entries@.len() ==> #[trigger] self.entries@[k].0@
                            == prev.entries@[k].0@);
                    assert forall|m: Seq<char>|
                        m != name@ && prev.spec_contains(m) implies self.spec_contains(m) by {
                        let k = choose|k: int|
                            0 <= k < prev.entries@.len() && prev.entries@[k].0@ == m;
                        assert(self.entries@[k].0@ == m);
                    }
                    assert forall|m: Seq<char>|
                        m != name@ && self.spec_contains(m) implies prev.spec_contains(m) by {
                        let k = choose|k: int|
                            0 <= k < self.entries@.len() && self.entries@[k].0@ == m;
                        assert(prev.entries@[k].0@ == m);
                    }
                }
                return ;
            }
        }
        let ghost prev = *self;
        self.entries.push((name, meal));
        proof {
            let last = self.entries@.len() - 1;
            assert(self.entries@[last].0@ == name@);
            assert(forall|k: int|
                0 <= k < last ==> #[trigger] self.entries@[k] == prev.entries@[k]);
            assert forall|m: Seq<char>|
                m != name@ && prev.spec_contains(m) implies self.spec_contains(m) by {
                let k = choose|k: int|
                    0 <= k < prev.entries@.len() && prev.entries@[k].0@ == m;
                assert(self.entries@[k].0@ == m);
            }
            assert forall|m: Seq<char>|
                m != name@ && self.spec_contains(m) implies prev.spec_contains(m) by {
                let k = choose|k: int|
                    0 <= k < self.entries@.len() && self.entries@[k].0@ == m;
                assert(k < last);
                assert(prev.entries@[k].0@ == m);
            }
        }
    }

    /// Removes and returns the meal under a name, keeping the order of
    /// the rest.
    pub fn remove(&mut self, name: &String) -> (r: Option<MealConstraint>)
        requires
            old(self).wf(),
        ensures
            final(self).wf(),
            r is Some <==> old(self).spec_contains(name@),
            !final(self).spec_contains(name@),
            forall|n: Seq<char>|
                n != name@ ==> (final(self).spec_contains(n) <==> old(self).spec_contains(n)),
    {
        let n = self.entries.len();
        for i in 0..n
            invariant
                n == self.entries@.len(),
                self.wf(),
                *self == *old(self),
                forall|j: int| 0 <= j < i ==> self.entries@[j].0@ != name@,
        {
            if self.entries[i].0 == *name {
                let ghost prev = *self;
                let entry = self.entries.remove(i);
                proof {
                    assert(prev.entries@[i as int].0@ == name@);
                    assert(forall|k: int|
                        0 <= k < i ==> #[trigger] self.entries@[k] == prev.entries@[k]);
                    assert(forall|k: int|
                        i <= k < self.entries@.len() ==> #[trigger] self.entries@[k]
                            == prev.entries@[k + 1]);
                    assert forall|m: Seq<char>|
                        m != name@ && prev.spec_contains(m) implies self.spec_contains(m) by {
                        let k = choose|k: int|
                            0 <= k < prev.entries@.len() && prev.entries@[k].0@ == m;
                        if k < i {
                            assert(self.entries@[k].0@ == m);
                        } else {
                            assert(self.entries@[k - 1].0@ == m);
                        }
                    }
                    assert forall|m: Seq<char>| self.spec_contains(m) implies prev.spec_contains(
                        m,
                    ) by {
                        let k = choose|k: int|
                            0 <= k < self.entries@.len() && self.entries@[k].0@ == m;
                        if k < i {
                            assert(prev.entries@[k].0@ == m);
                        } else {
                            assert(prev.entries@[k + 1].0@ == m);
                        }
                    }
                    assert forall|k: int|
                        0 <= k < self.entries@.len() implies self.entries@[k].0@ != name@ by {
                        if k < i {
                            assert(self.entries@[k] == prev.entries@[k]);
                        } else {
                            assert(self.entries@[k] == prev.entries@[k + 1]);
                            assert(prev.entries@[i as int].0@ == name@);
                        }
                    }
                }
                return Some(entry.1);
            }
        }
        None
    }

    /// The names in insertion order.
    pub fn keys(&self) -> (r: Vec<String>)
        ensures
            r@.len() == self.entries@.len(),
            forall|i: int| 0 <= i < r@.len() ==> r@[i] == self.entries@[i].0,
    {
        let mut out: Vec<String> = Vec::new();
        let n = self.entries.len();
        for i in 0..n
            invariant
                n == self.entries@.len(),
                out@.len() == i,
                forall|j: int| 0 <= j < i ==> out@[j] == self.entries@[j].0,
        {
            out.push(self.entries[i].0.clone());
        }
        out
    }
}

/// The constraints for one whole day: its meals by name plus the
/// day-scoped nutrient targets.
pub struct DayMealPlanConstraint {
    pub meals: MealsByName,
    pub nutrients: Vec<NutrientConstraint>,
}

} // verus!
