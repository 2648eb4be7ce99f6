use meal_planner::AllowedUnits;
use meal_planner::AllowedUnitsType;
use meal_planner::ConstraintsSolver;
use meal_planner::DayMealPlanConstraint;
use meal_planner::MacroElements;
use meal_planner::MacroElementsType;
use meal_planner::MealConstraint;
use meal_planner::MealsByName;
use meal_planner::MicroNutrients;
use meal_planner::MicroNutrientsType;
use meal_planner::MinOrMax;
use meal_planner::NutrientConstraint;
use meal_planner::NutrientType;
use meal_planner::Product;
use meal_planner::ProductConstraint;
use meal_planner::SolutionEntry;
use meal_planner::UnitData;

// Amounts are fixed-point hundredths: 40 g per 100 g is stored as 4000.
fn build_product(
    name: &str,
    protein_per_100g: u32,
    gram_amount: u16,
    gram_divider: u16,
    fiber: Option<u32>,
) -> Product {
    let macro_elements = Box::new(MacroElements::new(500, 100, 1000, 200, protein_per_100g));
    let mut micro_nutrients = Box::new(MicroNutrients::default());
    if let Some(fiber_value) = fiber {
        micro_nutrients.set(MicroNutrientsType::Fiber, Some(fiber_value));
    }

    let mut allowed_units = AllowedUnits::new();
    allowed_units.insert(
        AllowedUnitsType::Gram,
        UnitData {
            amount: gram_amount,
            divider: gram_divider,
        },
    );

    Product::new(
        name.to_string(),
        None,
        macro_elements,
        micro_nutrients,
        allowed_units,
    )
}

fn make_day_constraint(
    meal_name: &str,
    meal: MealConstraint,
    day_nutrients: Vec<NutrientConstraint>,
) -> DayMealPlanConstraint {
    let mut meals = MealsByName::new();
    meals.insert(meal_name.to_string(), meal);
    DayMealPlanConstraint {
        meals,
        nutrients: day_nutrients,
    }
}

fn grams_value(entry: &SolutionEntry) -> f64 {
    match entry {
        SolutionEntry::Product { amount_grams, .. } => {
            f64::from(amount_grams.numerator) / f64::from(amount_grams.denominator)
        }
        _ => panic!("Expected product entry"),
    }
}

#[test]
fn test_solver_handles_feasible_day() {
    let mut solver = ConstraintsSolver::new(
        MinOrMax::Min,
        NutrientType::Macro(MacroElementsType::Protein),
    );

    let product = build_product("ProteinPowder", 4000, 1, 1, Some(500));
    let product_constraint = ProductConstraint::new(
        Box::new(product.clone()),
        Some(0),
        Some(200),
        AllowedUnitsType::Gram,
    )
    .expect("product constraint should be valid");

    let meal = MealConstraint {
        products: vec![product_constraint],
        nutrients: vec![
            NutrientConstraint::new(
                NutrientType::Macro(MacroElementsType::Protein),
                Some(2000),
                Some(10000),
            )
            .unwrap(),
            NutrientConstraint::new(NutrientType::Macro(MacroElementsType::Fat), Some(0), None)
                .unwrap(),
        ],
    };

    let day_constraint = make_day_constraint(
        "Breakfast",
        meal,
        vec![
            NutrientConstraint::new(
                NutrientType::Macro(MacroElementsType::Protein),
                Some(1500),
                Some(12000),
            )
            .unwrap(),
            NutrientConstraint::new(
                NutrientType::Micro(MicroNutrientsType::Alcohol),
                None,
                Some(0),
            )
            .unwrap(),
        ],
    );

    let solution = solver
        .solve_day(&day_constraint)
        .expect("solution should exist");

    match solution.solution {
        SolutionEntry::Week {
            entries: week_entries,
        } => {
            assert_eq!(week_entries.len(), 1);
            match &week_entries[0] {
                SolutionEntry::Day {
                    name,
                    entries: day_entries,
                } => {
                    assert_eq!(name, "Day1");
                    assert_eq!(day_entries.len(), 1);
                    match &day_entries[0] {
                        SolutionEntry::Meal {
                            name: meal_name,
                            entries: meal_entries,
                        } => {
                            assert_eq!(meal_name, "Breakfast");
                            assert_eq!(meal_entries.len(), 1);
                            match &meal_entries[0] {
                                SolutionEntry::Product {
                                    product: solved_product,
                                    amount_grams,
                                    unit,
                                    amount_unit,
                                } => {
                                    assert_eq!(solved_product.name(), product.name());
                                    assert_eq!(*unit, AllowedUnitsType::Gram);
                                    let grams = f64::from(amount_grams.numerator)
                                        / f64::from(amount_grams.denominator);
                                    assert!((grams - 50.0).abs() < 1e-4);
                                    assert_eq!(amount_unit.numerator, 50);
                                    assert_eq!(amount_unit.denominator, 1);
                                }
                                _ => panic!("Expected product entry"),
                            }
                        }
                        _ => panic!("Expected meal entry"),
                    }
                }
                _ => panic!("Expected day entry"),
            }
        }
        _ => panic!("Expected week entry"),
    }
}

#[test]
fn test_solver_reports_infeasible_constraints() {
    let mut solver = ConstraintsSolver::new(
        MinOrMax::Min,
        NutrientType::Macro(MacroElementsType::Protein),
    );

    let product = build_product("ProteinPowder", 4000, 1, 1, None);
    let product_constraint = ProductConstraint::new(
        Box::new(product),
        Some(0),
        Some(60),
        AllowedUnitsType::Gram,
    )
    .expect("product constraint should be valid");

    let meal = MealConstraint {
        products: vec![product_constraint],
        nutrients: vec![NutrientConstraint::new(
            NutrientType::Macro(MacroElementsType::Protein),
            Some(20000),
            Some(22000),
        )
        .unwrap()],
    };

    let day_constraint = make_day_constraint("Lunch", meal, Vec::new());

    let result = solver.solve_day(&day_constraint);
    assert!(matches!(result, Err(msg) if msg == "Constraints are infeasible"));
}

#[test]
fn test_solver_reports_unbounded_problem() {
    let mut solver = ConstraintsSolver::new(
        MinOrMax::Max,
        NutrientType::Macro(MacroElementsType::Protein),
    );
    solver.problem.add_var(1.0, (0.0, f64::INFINITY));

    let product = build_product("Unbounded", 1000, 1, 1, None);
    let product_constraint =
        ProductConstraint::new(Box::new(product), None, None, AllowedUnitsType::Gram)
            .expect("product constraint should be valid");

    let meal = MealConstraint {
        products: vec![product_constraint],
        nutrients: Vec::new(),
    };

    let day_constraint = make_day_constraint("Dinner", meal, Vec::new());

    let result = solver.solve_day(&day_constraint);
    assert!(matches!(result, Err(msg) if msg == "Problem is unbounded"));
}

#[test]
fn test_solver_handles_multiple_meals_and_day_constraints() {
    let mut solver = ConstraintsSolver::new(
        MinOrMax::Min,
        NutrientType::Macro(MacroElementsType::Protein),
    );

    let eggs_fiber: u32 = 800;
    let beans_fiber: u32 = 500;
    let spinach_fiber: u32 = 2000;

    let eggs = build_product("Eggs", 3000, 50, 1, Some(eggs_fiber));
    let beans = build_product("Beans", 1800, 100, 1, Some(beans_fiber));
    let spinach = build_product("Spinach", 400, 25, 1, Some(spinach_fiber));

    let breakfast = MealConstraint {
        products: vec![ProductConstraint::new(
            Box::new(eggs.clone()),
            Some(50),
            Some(300),
            AllowedUnitsType::Gram,
        )
        .expect("eggs constraint should be valid")],
        nutrients: vec![NutrientConstraint::new(
            NutrientType::Macro(MacroElementsType::Protein),
            Some(3000),
            Some(8000),
        )
        .unwrap()],
    };

    let dinner = MealConstraint {
        products: vec![
            ProductConstraint::new(
                Box::new(beans.clone()),
                Some(100),
                Some(300),
                AllowedUnitsType::Gram,
            )
            .expect("beans constraint should be valid"),
            ProductConstraint::new(
                Box::new(spinach.clone()),
                Some(0),
                Some(100),
                AllowedUnitsType::Gram,
            )
            .expect("spinach constraint should be valid"),
        ],
        nutrients: vec![
            NutrientConstraint::new(
                NutrientType::Macro(MacroElementsType::Protein),
                Some(3500),
                Some(9000),
            )
            .unwrap(),
            NutrientConstraint::new(
                NutrientType::Micro(MicroNutrientsType::Fiber),
                Some(1000),
                Some(2000),
            )
            .unwrap(),
        ],
    };

    let mut meals = MealsByName::new();
    meals.insert("Breakfast".to_string(), breakfast);
    meals.insert("Dinner".to_string(), dinner);

    let day_constraint = DayMealPlanConstraint {
        meals,
        nutrients: vec![
            NutrientConstraint::new(
                NutrientType::Macro(MacroElementsType::Protein),
                Some(6500),
                Some(9000),
            )
            .unwrap(),
            NutrientConstraint::new(
                NutrientType::Micro(MicroNutrientsType::Fiber),
                Some(2500),
                Some(3500),
            )
            .unwrap(),
        ],
    };

    let solution = solver
        .solve_day(&day_constraint)
        .expect("solution should exist");

    let week_entries = match solution.solution {
        SolutionEntry::Week { entries } => entries,
        _ => panic!("Expected week entry"),
    };
    assert_eq!(week_entries.len(), 1);

    let day_entries = match week_entries.into_iter().next().expect("expected day entry") {
        SolutionEntry::Day { name, entries } => {
            assert_eq!(name, "Day1");
            entries
        }
        _ => panic!("Expected day entry"),
    };

    let mut breakfast_entries: Option<Vec<SolutionEntry>> = None;
    let mut dinner_entries: Option<Vec<SolutionEntry>> = None;
    for meal_entry in day_entries {
        match meal_entry {
            SolutionEntry::Meal { name, entries } => {
                if name == "Breakfast" {
                    breakfast_entries = Some(entries);
                } else if name == "Dinner" {
                    dinner_entries = Some(entries);
                } else {
                    panic!("Unexpected meal {name}");
                }
            }
            _ => panic!("Expected meal entry"),
        }
    }

    let breakfast_entries = breakfast_entries.expect("expected breakfast meal");
    assert_eq!(breakfast_entries.len(), 1);
    let (eggs_amount, eggs_units) = match &breakfast_entries[0] {
        SolutionEntry::Product {
            product,
            amount_grams,
            unit,
            amount_unit,
        } => {
            assert_eq!(product.name(), "Eggs");
            assert_eq!(*unit, AllowedUnitsType::Gram);
            assert_eq!(amount_unit.denominator, 1);
            let grams = f64::from(amount_grams.numerator) / f64::from(amount_grams.denominator);
            assert!((grams - 100.0).abs() < 1e-6);
            (grams, amount_unit.numerator)
        }
        _ => panic!("Expected product entry in breakfast"),
    };
    assert_eq!(eggs_units, 2);

    let dinner_entries = dinner_entries.expect("expected dinner meal");
    assert_eq!(dinner_entries.len(), 2);

    let mut beans_amount = None;
    let mut beans_units = None;
    let mut spinach_amount = None;
    let mut spinach_units = None;

    for entry in &dinner_entries {
        match entry {
            SolutionEntry::Product {
                product,
                amount_grams,
                unit,
                amount_unit,
            } => {
                let grams =
                    f64::from(amount_grams.numerator) / f64::from(amount_grams.denominator);
                match product.name() {
                    "Beans" => {
                        assert_eq!(*unit, AllowedUnitsType::Gram);
                        assert_eq!(amount_unit.denominator, 1);
                        assert!((grams - 200.0).abs() < 1e-6);
                        beans_amount = Some(grams);
                        beans_units = Some(amount_unit.numerator);
                    }
                    "Spinach" => {
                        assert_eq!(*unit, AllowedUnitsType::Gram);
                        assert_eq!(amount_unit.denominator, 1);
                        assert!((grams - 50.0).abs() < 1e-6);
                        spinach_amount = Some(grams);
                        spinach_units = Some(amount_unit.numerator);
                    }
                    other => panic!("Unexpected product {other}"),
                }
            }
            _ => panic!("Expected product entry in dinner"),
        }
    }

    let beans_amount = beans_amount.expect("beans amount not found");
    let beans_units = beans_units.expect("beans units not found");
    let spinach_amount = spinach_amount.expect("spinach amount not found");
    let spinach_units = spinach_units.expect("spinach units not found");

    assert_eq!(beans_units, 2);
    assert_eq!(spinach_units, 2);

    // Reconstructed totals (grams x per-100g / 100) must fall inside every
    // declared bound interval, at meal and day scope alike.
    let total_fiber = (f64::from(eggs_fiber) / 100.0 / 100.0) * eggs_amount
        + (f64::from(beans_fiber) / 100.0 / 100.0) * beans_amount
        + (f64::from(spinach_fiber) / 100.0 / 100.0) * spinach_amount;
    assert!(total_fiber >= 25.0);
    assert!(total_fiber <= 35.0);

    let total_protein = (30.0 / 100.0) * eggs_amount
        + (18.0 / 100.0) * beans_amount
        + (4.0 / 100.0) * spinach_amount;
    assert!(total_protein >= 65.0);
    assert!(total_protein <= 90.0);
}
