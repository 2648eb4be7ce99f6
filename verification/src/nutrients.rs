//! Nutrient kinds and per-100g nutrient records.
//!
//! A macro-nutrient record carries the five settable bulk nutrients and a
//! derived energy value (`Calories = 9·Fat + 4·Carbs + 4·Protein`), which
//! cannot be set directly. A micro-nutrient record carries one independently
//! optional entry per trace nutrient; absence is not the same as zero.
//!
//! All amounts are fixed-point: a stored `n` means `n / 100` grams per 100 g.
use vstd::prelude::*;

verus! {

/// Largest representable per-100g amount (one million grams per 100 g in
/// fixed-point hundredths): keeps the derived calorie value inside `u32`.
pub const NUTRIENT_LIMIT: u32 = 100_000_000;

/// A bulk dietary component with a derived energy value.
#[derive(Clone, Copy, Debug, PartialEq, Eq, Structural)]
pub enum MacroElementsType {
    Fat,
    SaturatedFat,
    Carbs,
    Sugar,
    Protein,
    Calories,
}

/// A trace dietary component, independently optional per product.
#[derive(Clone, Copy, Debug, PartialEq, Eq, Structural)]
pub enum MicroNutrientsType {
    Fiber,
    Zinc,
    Sodium,
    Alcohol,
}

/// A nutrient target: either a bulk nutrient or a trace nutrient.
#[derive(Clone, Copy, Debug, PartialEq, Eq, Structural)]
pub enum NutrientType {
    Macro(MacroElementsType),
    Micro(MicroNutrientsType),
}

impl MacroElementsType {
    /// The human-readable name of this nutrient.
    pub open spec fn spec_display_name(self) -> Seq<char> {
        match self {
            MacroElementsType::Fat => "Fat"@,
            MacroElementsType::SaturatedFat => "Saturated Fat"@,
            MacroElementsType::Carbs => "Carbohydrates"@,
            MacroElementsType::Sugar => "Sugar"@,
            MacroElementsType::Protein => "Protein"@,
            MacroElementsType::Calories => "Calories"@,
        }
    }

    pub fn display_name(&self) -> (r: String)
        ensures
            r@ == self.spec_display_name(),
    {
        match self {
            MacroElementsType::Fat => String::from_str("Fat"),
            MacroElementsType::SaturatedFat => String::from_str("Saturated Fat"),
            MacroElementsType::Carbs => String::from_str("Carbohydrates"),
            MacroElementsType::Sugar => String::from_str("Sugar"),
            MacroElementsType::Protein => String::from_str("Protein"),
            MacroElementsType::Calories => String::from_str("Calories"),
        }
    }
}

impl MicroNutrientsType {
    /// The human-readable name of this nutrient.
    pub open spec fn spec_display_name(self) -> Seq<char> {
        match self {
            MicroNutrientsType::Fiber => "Fiber"@,
            MicroNutrientsType::Zinc => "Zinc"@,
            MicroNutrientsType::Sodium => "Sodium"@,
            MicroNutrientsType::Alcohol => "Alcohol"@,
        }
    }

    pub fn display_name(&self) -> (r: String)
        ensures
            r@ == self.spec_display_name(),
    {
        match self {
            MicroNutrientsType::Fiber => String::from_str("Fiber"),
            MicroNutrientsType::Zinc => String::from_str("Zinc"),
            MicroNutrientsType::Sodium => String::from_str("Sodium"),
            MicroNutrientsType::Alcohol => String::from_str("Alcohol"),
        }
    }
}

impl NutrientType {
    /// The name of this target as the variant is written in source, used in
    /// error messages that must identify the nutrient exactly.
    pub open spec fn spec_debug_name(self) -> Seq<char> {
        match self {
            NutrientType::Macro(m) => "Macro("@ + m.spec_debug_name() + ")"@,
            NutrientType::Micro(m) => "Micro("@ + m.spec_debug_name() + ")"@,
        }
    }

    pub fn debug_name(&self) -> (r: String)
        ensures
            r@ == self.spec_debug_name(),
    {
        match self {
            NutrientType::Macro(m) => {
                let mut s = String::from_str("Macro(");
                s.append(m.debug_name().as_str());
                s.append(")");
                s
            },
            NutrientType::Micro(m) => {
                let mut s = String::from_str("Micro(");
                s.append(m.debug_name().as_str());
                s.append(")");
                s
            },
        }
    }
}

impl MacroElementsType {
    /// The name of the variant as written in source.
    pub open spec fn spec_debug_name(self) -> Seq<char> {
        match self {
            MacroElementsType::Fat => "Fat"@,
            MacroElementsType::SaturatedFat => "SaturatedFat"@,
            MacroElementsType::Carbs => "Carbs"@,
            MacroElementsType::Sugar => "Sugar"@,
            MacroElementsType::Protein => "Protein"@,
            MacroElementsType::Calories => "Calories"@,
        }
    }

    pub fn debug_name(&self) -> (r: String)
        ensures
            r@ == self.spec_debug_name(),
    {
        match self {
            MacroElementsType::Fat => String::from_str("Fat"),
            MacroElementsType::SaturatedFat => String::from_str("SaturatedFat"),
            MacroElementsType::Carbs => String::from_str("Carbs"),
            MacroElementsType::Sugar => String::from_str("Sugar"),
            MacroElementsType::Protein => String::from_str("Protein"),
            MacroElementsType::Calories => String::from_str("Calories"),
        }
    }
}

impl MicroNutrientsType {
    /// The name of the variant as written in source.
    pub open spec fn spec_debug_name(self) -> Seq<char> {
        match self {
            MicroNutrientsType::Fiber => "Fiber"@,
            MicroNutrientsType::Zinc => "Zinc"@,
            MicroNutrientsType::Sodium => "Sodium"@,
            MicroNutrientsType::Alcohol => "Alcohol"@,
        }
    }

    pub fn debug_name(&self) -> (r: String)
        ensures
            r@ == self.spec_debug_name(),
    {
        match self {
            MicroNutrientsType::Fiber => String::from_str("Fiber"),
            MicroNutrientsType::Zinc => String::from_str("Zinc"),
            MicroNutrientsType::Sodium => String::from_str("Sodium"),
            MicroNutrientsType::Alcohol => String::from_str("Alcohol"),
        }
    }
}

/// Macro-nutrient amounts per 100 g, in fixed-point hundredths.
/// The calorie value is derived, never stored.
#[derive(Clone, Copy, Debug, PartialEq, Eq, Structural)]
pub struct MacroElements {
    pub fat: u32,
    pub saturated_fat: u32,
    pub carbs: u32,
    pub sugar: u32,
    pub protein: u32,
}

impl MacroElements {
    /// Every settable amount is small enough that the derived calorie
    /// value fits in `u32`.
    pub open spec fn wf(self) -> bool {
        self.fat <= NUTRIENT_LIMIT && self.saturated_fat <= NUTRIENT_LIMIT && self.carbs
            <= NUTRIENT_LIMIT && self.sugar <= NUTRIENT_LIMIT && self.protein <= NUTRIENT_LIMIT
    }

    /// The derived energy value: 9 per gram of fat, 4 per gram of carbs
    /// or protein.
    pub open spec fn spec_calories(self) -> int {
        9 * self.fat + 4 * self.carbs + 4 * self.protein
    }

    /// The stored (or, for `Calories`, derived) amount of one nutrient.
    pub open spec fn spec_get(self, key: MacroElementsType) -> int {
        match key {
            MacroElementsType::Fat => self.fat as int,
            MacroElementsType::SaturatedFat => self.saturated_fat as int,
            MacroElementsType::Carbs => self.carbs as int,
            MacroElementsType::Sugar => self.sugar as int,
            MacroElementsType::Protein => self.protein as int,
            MacroElementsType::Calories => self.spec_calories(),
        }
    }

    pub fn new(fat: u32, saturated_fat: u32, carbs: u32, sugar: u32, protein: u32) -> (r:
        MacroElements)
        requires
            fat <= NUTRIENT_LIMIT,
            saturated_fat <= NUTRIENT_LIMIT,
            carbs <= NUTRIENT_LIMIT,
            sugar <= NUTRIENT_LIMIT,
            protein <= NUTRIENT_LIMIT,
        ensures
            r == (MacroElements { fat, saturated_fat, carbs, sugar, protein }),
            r.wf(),
    {
        MacroElements { fat, saturated_fat, carbs, sugar, protein }
    }

    pub fn get(&self, key: MacroElementsType) -> (r: u32)
        requires
            self.wf(),
        ensures
            r as int == self.spec_get(key),
    {
        match key {
            MacroElementsType::Fat => self.fat,
            MacroElementsType::SaturatedFat => self.saturated_fat,
            MacroElementsType::Carbs => self.carbs,
            MacroElementsType::Sugar => self.sugar,
            MacroElementsType::Protein => self.protein,
            MacroElementsType::Calories => 9 * self.fat + 4 * self.carbs + 4 * self.protein,
        }
    }

    /// The record with one settable amount replaced.
    pub open spec fn spec_set(self, key: MacroElementsType, value: u32) -> MacroElements {
        match key {
            MacroElementsType::Fat => MacroElements { fat: value, ..self },
            MacroElementsType::SaturatedFat => MacroElements { saturated_fat: value, ..self },
            MacroElementsType::Carbs => MacroElements { carbs: value, ..self },
            MacroElementsType::Sugar => MacroElements { sugar: value, ..self },
            MacroElementsType::Protein => MacroElements { protein: value, ..self },
            MacroElementsType::Calories => self,
        }
    }

    /// Replaces one settable amount; the calorie value, being derived,
    /// is rejected.
    pub fn set(&mut self, key: MacroElementsType, value: u32) -> (r: Result<(), String>)
        requires
            value <= NUTRIENT_LIMIT,
            old(self).wf(),
        ensures
            final(self).wf(),
            key == MacroElementsType::Calories ==> *final(self) == *old(self) && (r matches Err(m)
                && m@ == "Cannot set calories directly"@),
            key != MacroElementsType::Calories ==> r is Ok && *final(self) == old(self).spec_set(
                key,
                value,
            ),
    {
        match key {
            MacroElementsType::Calories => Err(String::from_str("Cannot set calories directly")),
            MacroElementsType::Fat => {
                self.fat = value;
                Ok(())
            },
            MacroElementsType::SaturatedFat => {
                self.saturated_fat = value;
                Ok(())
            },
            MacroElementsType::Carbs => {
                self.carbs = value;
                Ok(())
            },
            MacroElementsType::Sugar => {
                self.sugar = value;
                Ok(())
            },
            MacroElementsType::Protein => {
                self.protein = value;
                Ok(())
            },
        }
    }

    /// The pointwise sum of two records over the settable nutrients.
    pub fn add_ref(lhs: &MacroElements, rhs: &MacroElements) -> (r: MacroElements)
        requires
            lhs.fat + rhs.fat <= NUTRIENT_LIMIT,
            lhs.saturated_fat + rhs.saturated_fat <= NUTRIENT_LIMIT,
            lhs.carbs + rhs.carbs <= NUTRIENT_LIMIT,
            lhs.sugar + rhs.sugar <= NUTRIENT_LIMIT,
            lhs.protein + rhs.protein <= NUTRIENT_LIMIT,
        ensures
            r.fat == lhs.fat + rhs.fat,
            r.saturated_fat == lhs.saturated_fat + rhs.saturated_fat,
            r.carbs == lhs.carbs + rhs.carbs,
            r.sugar == lhs.sugar + rhs.sugar,
            r.protein == lhs.protein + rhs.protein,
            r.wf(),
    {
        MacroElements {
            fat: lhs.fat + rhs.fat,
            saturated_fat: lhs.saturated_fat + rhs.saturated_fat,
            carbs: lhs.carbs + rhs.carbs,
            sugar: lhs.sugar + rhs.sugar,
            protein: lhs.protein + rhs.protein,
        }
    }
}

/// The derived calorie value distributes over a pointwise sum.
///
/// For any two well-formed records, the calories of their sum equal the
/// sum of their calories.
pub proof fn lemma_calories_add(lhs: MacroElements, rhs: MacroElements, sum: MacroElements)
    requires
        sum.fat == lhs.fat + rhs.fat,
        sum.carbs == lhs.carbs + rhs.carbs,
        sum.protein == lhs.protein + rhs.protein,
    ensures
        sum.spec_calories() == lhs.spec_calories() + rhs.spec_calories(),
{
}

/// Micro-nutrient amounts per 100 g, in fixed-point hundredths; each entry
/// is independently present or absent, and absence is not zero.
#[derive(Clone, Copy, Debug, PartialEq, Eq)]
pub struct MicroNutrients {
    pub fiber: Option<u32>,
    pub zinc: Option<u32>,
    pub sodium: Option<u32>,
    pub alcohol: Option<u32>,
}

impl MicroNutrients {
    /// The stored amount of one nutrient, absent entries as `None`.
    pub open spec fn spec_get(self, key: MicroNutrientsType) -> Option<u32> {
        match key {
            MicroNutrientsType::Fiber => self.fiber,
            MicroNutrientsType::Zinc => self.zinc,
            MicroNutrientsType::Sodium => self.sodium,
            MicroNutrientsType::Alcohol => self.alcohol,
        }
    }

    pub fn get(&self, key: MicroNutrientsType) -> (r: Option<u32>)
        ensures
            r == self.spec_get(key),
    {
        match key {
            MicroNutrientsType::Fiber => self.fiber,
            MicroNutrientsType::Zinc => self.zinc,
            MicroNutrientsType::Sodium => self.sodium,
            MicroNutrientsType::Alcohol => self.alcohol,
        }
    }

    /// The record with one entry replaced.
    pub open spec fn spec_set(self, key: MicroNutrientsType, value: Option<u32>) -> MicroNutrients {
        match key {
            MicroNutrientsType::Fiber => MicroNutrients { fiber: value, ..self },
            MicroNutrientsType::Zinc => MicroNutrients { zinc: value, ..self },
            MicroNutrientsType::Sodium => MicroNutrients { sodium: value, ..self },
            MicroNutrientsType::Alcohol => MicroNutrients { alcohol: value, ..self },
        }
    }

    /// Replaces one entry; setting `None` marks the nutrient absent.
    pub fn set(&mut self, key: MicroNutrientsType, value: Option<u32>)
        ensures
            *final(self) == old(self).spec_set(key, value),
    {
        match key {
            MicroNutrientsType::Fiber => self.fiber = value,
            MicroNutrientsType::Zinc => self.zinc = value,
            MicroNutrientsType::Sodium => self.sodium = value,
            MicroNutrientsType::Alcohol => self.alcohol = value,
        }
    }

    /// The sum of two optional amounts: both present adds, one present
    /// keeps it, both absent stays absent.
    pub open spec fn spec_merge(a: Option<u32>, b: Option<u32>) -> Option<int> {
        match (a, b) {
            (Some(x), Some(y)) => Some(x + y),
            (Some(x), None) => Some(x as int),
            (None, Some(y)) => Some(y as int),
            (None, None) => None,
        }
    }

    /// The pointwise merge of two records.
    pub fn add_ref(lhs: &MicroNutrients, rhs: &MicroNutrients) -> (r: MicroNutrients)
        requires
            forall|k: MicroNutrientsType|
                #[trigger] lhs.spec_get(k) matches Some(x) && rhs.spec_get(k) matches Some(y) ==> x
                    + y <= u32::MAX,
        ensures
            forall|k: MicroNutrientsType| #[trigger]
                r.spec_get(k) matches Some(v) ==> Self::spec_merge(
                    lhs.spec_get(k),
                    rhs.spec_get(k),
                ) == Some(v as int),
            forall|k: MicroNutrientsType| #[trigger]
                r.spec_get(k) is None ==> Self::spec_merge(lhs.spec_get(k), rhs.spec_get(k))
                    is None,
    {
        MicroNutrients {
            fiber: Self::merge_one(lhs, rhs, MicroNutrientsType::Fiber),
            zinc: Self::merge_one(lhs, rhs, MicroNutrientsType::Zinc),
            sodium: Self::merge_one(lhs, rhs, MicroNutrientsType::Sodium),
            alcohol: Self::merge_one(lhs, rhs, MicroNutrientsType::Alcohol),
        }
    }

    fn merge_one(lhs: &MicroNutrients, rhs: &MicroNutrients, key: MicroNutrientsType) -> (r: Option<
        u32,
    >)
        requires
            lhs.spec_get(key) matches Some(x) && rhs.spec_get(key) matches Some(y) ==> x + y
                <= u32::MAX,
        ensures
            r matches Some(v) ==> Self::spec_merge(lhs.spec_get(key), rhs.spec_get(key)) == Some(
                v as int,
            ),
            r is None ==> Self::spec_merge(lhs.spec_get(key), rhs.spec_get(key)) is None,
    {
        match (lhs.get(key), rhs.get(key)) {
            (Some(x), Some(y)) => Some(x + y),
            (Some(x), None) => Some(x),
            (None, Some(y)) => Some(y),
            (None, None) => None,
        }
    }
}

impl Default for MicroNutrients {
    /// A record with every entry absent.
    fn default() -> (r: MicroNutrients)
        ensures
            r.fiber is None && r.zinc is None && r.sodium is None && r.alcohol is None,
    {
        MicroNutrients { fiber: None, zinc: None, sodium: None, alcohol: None }
    }
}

} // verus!
