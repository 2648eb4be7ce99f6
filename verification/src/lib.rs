//! Meal planning core: a constraint model for day meal plans, a compiler
//! from that model to a mixed-integer linear program, a solver-outcome
//! classifier, a solution extractor, and a nutrient-equivalence swapper.
//!
//! All nutrient quantities are exact fixed-point integers: a stored value
//! of `n` stands for `n / 100` units (grams of nutrient per 100 g of
//! product, or grams of a bound), so every computation here is integer
//! arithmetic and is verified as such.
pub mod constraints;
pub mod db;
pub mod locale;
pub mod lp;
pub mod nutrients;
pub mod product;
pub mod solver;
pub mod swap;
pub mod units;

pub use constraints::DayMealPlanConstraint;
pub use constraints::MealConstraint;
pub use constraints::MealsByName;
pub use constraints::NutrientConstraint;
pub use constraints::ProductConstraint;
pub use db::DataBaseTypes;
pub use db::DbSearchCriteria;
pub use locale::LocaleCatalog;
pub use locale::Translations;
pub use lp::MinOrMax;
pub use nutrients::MacroElements;
pub use nutrients::MacroElementsType;
pub use nutrients::MicroNutrients;
pub use nutrients::MicroNutrientsType;
pub use nutrients::NutrientType;
pub use product::Product;
pub use solver::ConstraintsSolver;
pub use solver::Fraction;
pub use solver::GramAmount;
pub use solver::Solution;
pub use solver::SolutionEntry;
pub use swap::ProductSwapper;
pub use units::AllowedUnits;
pub use units::AllowedUnitsType;
pub use units::UnitData;
