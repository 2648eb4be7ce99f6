use meal_planner::AllowedUnits;
use meal_planner::AllowedUnitsType;
use meal_planner::DayMealPlanConstraint;
use meal_planner::MacroElements;
use meal_planner::MacroElementsType;
use meal_planner::MealConstraint;
use meal_planner::MealsByName;
use meal_planner::MicroNutrients;
use meal_planner::MicroNutrientsType;
use meal_planner::NutrientConstraint;
use meal_planner::NutrientType;
use meal_planner::Product;
use meal_planner::ProductConstraint;
use meal_planner::UnitData;

fn basic_product(name: &str, units: AllowedUnits) -> Product {
    Product::new(
        name.to_string(),
        None,
        Box::new(MacroElements::new(100, 200, 300, 400, 500)),
        Box::new(MicroNutrients::default()),
        units,
    )
}

#[test]
fn nutrient_constraint_test_nutrient_constraint_constructor_macro() {
    let constraint = NutrientConstraint::new(
        NutrientType::Macro(MacroElementsType::Protein),
        Some(1000),
        Some(5000),
    )
    .unwrap();
    match constraint.element() {
        NutrientType::Macro(MacroElementsType::Protein) => {}
        _ => panic!("Expected MacroElementsType::Protein"),
    }
    assert_eq!(constraint.min(), Some(1000));
    assert_eq!(constraint.max(), Some(5000));
}

#[test]
fn nutrient_constraint_test_nutrient_constraint_constructor_micro() {
    let constraint =
        NutrientConstraint::new(NutrientType::Micro(MicroNutrientsType::Zinc), None, Some(1800))
            .unwrap();
    match constraint.element() {
        NutrientType::Micro(MicroNutrientsType::Zinc) => {}
        _ => panic!("Expected MicroNutrientsType::Zinc"),
    }
    assert_eq!(constraint.min(), None);
    assert_eq!(constraint.max(), Some(1800));
}

#[test]
fn nutrient_constraint_test_nutrient_constraint_no_bounds() {
    let constraint =
        NutrientConstraint::new(NutrientType::Macro(MacroElementsType::Fat), None, None).unwrap();
    assert_eq!(constraint.min(), None);
    assert_eq!(constraint.max(), None);
}

#[test]
fn nutrient_constraint_test_nutrient_constraint_element_accessor() {
    let constraint = NutrientConstraint::new(
        NutrientType::Micro(MicroNutrientsType::Alcohol),
        Some(0),
        None,
    )
    .unwrap();
    assert_eq!(
        constraint.element(),
        NutrientType::Micro(MicroNutrientsType::Alcohol)
    );
}

#[test]
fn test_nutrient_constraint_negative_min() {
    let constraint = NutrientConstraint::new(
        NutrientType::Macro(MacroElementsType::Carbs),
        Some(-100),
        Some(1000),
    );
    assert!(
        constraint.is_none(),
        "Constraint should not allow negative min"
    );
}

#[test]
fn test_nutrient_constraint_negative_max() {
    let constraint = NutrientConstraint::new(
        NutrientType::Micro(MicroNutrientsType::Zinc),
        Some(0),
        Some(-500),
    );
    assert!(
        constraint.is_none(),
        "Constraint should not allow negative max"
    );
}

#[test]
fn test_nutrient_constraint_min_greater_than_max() {
    let constraint = NutrientConstraint::new(
        NutrientType::Macro(MacroElementsType::Fat),
        Some(2000),
        Some(1000),
    );
    assert!(
        constraint.is_none(),
        "Constraint should not allow min > max"
    );
}

#[test]
fn test_nutrient_constraint_min_equal_max() {
    let constraint = NutrientConstraint::new(
        NutrientType::Macro(MacroElementsType::Fat),
        Some(1000),
        Some(1000),
    );
    assert!(constraint.is_some(), "Constraint should allow min == max");
    let constraint = constraint.unwrap();
    assert_eq!(constraint.min(), Some(1000));
    assert_eq!(constraint.max(), Some(1000));
}

#[test]
fn test_nutrient_constraint_zero_min_and_max() {
    let constraint = NutrientConstraint::new(
        NutrientType::Micro(MicroNutrientsType::Fiber),
        Some(0),
        Some(0),
    );
    assert!(
        constraint.is_some(),
        "Constraint should allow zero min and max"
    );
    let constraint = constraint.unwrap();
    assert_eq!(constraint.min(), Some(0));
    assert_eq!(constraint.max(), Some(0));
}

#[test]
fn test_nutrient_constraint_update_macro() {
    let mut constraint = NutrientConstraint::new(
        NutrientType::Macro(MacroElementsType::Protein),
        Some(1000),
        Some(5000),
    )
    .unwrap();
    let new_constraint = NutrientConstraint::new(
        NutrientType::Macro(MacroElementsType::Fat),
        Some(500),
        Some(2000),
    )
    .unwrap();
    constraint.update(new_constraint);
    assert_eq!(
        constraint.element(),
        NutrientType::Macro(MacroElementsType::Fat)
    );
    assert_eq!(constraint.min(), Some(500));
    assert_eq!(constraint.max(), Some(2000));
}

#[test]
fn test_nutrient_constraint_update_micro() {
    let mut constraint = NutrientConstraint::new(
        NutrientType::Micro(MicroNutrientsType::Zinc),
        Some(200),
        Some(1000),
    )
    .unwrap();
    let new_constraint = NutrientConstraint::new(
        NutrientType::Micro(MicroNutrientsType::Alcohol),
        None,
        Some(500),
    )
    .unwrap();
    constraint.update(new_constraint);
    assert_eq!(
        constraint.element(),
        NutrientType::Micro(MicroNutrientsType::Alcohol)
    );
    assert_eq!(constraint.min(), None);
    assert_eq!(constraint.max(), Some(500));
}

#[test]
fn test_nutrient_constraint_update_to_no_bounds() {
    let mut constraint = NutrientConstraint::new(
        NutrientType::Macro(MacroElementsType::Carbs),
        Some(100),
        Some(1000),
    )
    .unwrap();
    let new_constraint =
        NutrientConstraint::new(NutrientType::Macro(MacroElementsType::Carbs), None, None).unwrap();
    constraint.update(new_constraint);
    assert_eq!(constraint.min(), None);
    assert_eq!(constraint.max(), None);
}

#[test]
fn test_nutrient_constraint_update_to_same() {
    let mut constraint = NutrientConstraint::new(
        NutrientType::Micro(MicroNutrientsType::Fiber),
        Some(300),
        Some(800),
    )
    .unwrap();
    let new_constraint = NutrientConstraint::new(
        NutrientType::Micro(MicroNutrientsType::Fiber),
        Some(300),
        Some(800),
    )
    .unwrap();
    constraint.update(new_constraint);
    assert_eq!(
        constraint.element(),
        NutrientType::Micro(MicroNutrientsType::Fiber)
    );
    assert_eq!(constraint.min(), Some(300));
    assert_eq!(constraint.max(), Some(800));
}

#[test]
fn test_nutrient_constraint_update_macro_to_micro() {
    let mut constraint = NutrientConstraint::new(
        NutrientType::Macro(MacroElementsType::Fat),
        Some(200),
        Some(600),
    )
    .unwrap();
    let new_constraint = NutrientConstraint::new(
        NutrientType::Micro(MicroNutrientsType::Zinc),
        Some(100),
        Some(300),
    )
    .unwrap();
    constraint.update(new_constraint);
    assert_eq!(
        constraint.element(),
        NutrientType::Micro(MicroNutrientsType::Zinc)
    );
    assert_eq!(constraint.min(), Some(100));
    assert_eq!(constraint.max(), Some(300));
}

#[test]
fn product_constraint_test_product_constraint_valid_creation() {
    let mut allowed_units = AllowedUnits::new();
    allowed_units.insert(
        AllowedUnitsType::Cup,
        UnitData {
            amount: 250,
            divider: 1,
        },
    );
    allowed_units.insert(
        AllowedUnitsType::Gram,
        UnitData {
            amount: 1,
            divider: 1,
        },
    );
    let product = Box::new(basic_product("Test Product", allowed_units));
    let constraint = ProductConstraint::new(product, Some(1), Some(5), AllowedUnitsType::Cup);
    assert!(constraint.is_some());
}

#[test]
fn product_constraint_test_product_constraint_invalid_unit() {
    let product = Box::new(basic_product("Test Product", AllowedUnits::new()));
    let constraint = ProductConstraint::new(product, Some(1), Some(5), AllowedUnitsType::Cup);
    assert!(constraint.is_none());
}

#[test]
fn product_constraint_test_product_constraint_invalid_bounds() {
    let mut allowed_units = AllowedUnits::new();
    allowed_units.insert(
        AllowedUnitsType::Cup,
        UnitData {
            amount: 250,
            divider: 1,
        },
    );
    let product = Box::new(basic_product("Test Product", allowed_units));
    let constraint = ProductConstraint::new(product, Some(10), Some(5), AllowedUnitsType::Cup);
    assert!(constraint.is_none());
}

#[test]
fn test_product_constraint_update() {
    let mut allowed_units1 = AllowedUnits::new();
    allowed_units1.insert(
        AllowedUnitsType::Cup,
        UnitData {
            amount: 250,
            divider: 1,
        },
    );
    allowed_units1.insert(
        AllowedUnitsType::Gram,
        UnitData {
            amount: 1,
            divider: 1,
        },
    );
    let product1 = Box::new(basic_product("Product 1", allowed_units1));
    let mut constraint1 =
        ProductConstraint::new(product1, Some(1), Some(5), AllowedUnitsType::Cup).unwrap();

    let mut allowed_units2 = AllowedUnits::new();
    allowed_units2.insert(
        AllowedUnitsType::Gram,
        UnitData {
            amount: 1,
            divider: 1,
        },
    );
    let product2 = Box::new(basic_product("Product 2", allowed_units2));
    let constraint2 =
        ProductConstraint::new(product2, Some(2), Some(10), AllowedUnitsType::Gram).unwrap();

    constraint1.update(constraint2);

    assert_eq!(constraint1.food().name(), "Product 2");
    assert_eq!(constraint1.low_bound(), Some(2));
    assert_eq!(constraint1.up_bound(), Some(10));
    assert_eq!(constraint1.unit(), AllowedUnitsType::Gram);
}

#[test]
fn test_product_constraint_no_bounds() {
    let mut allowed_units = AllowedUnits::new();
    allowed_units.insert(
        AllowedUnitsType::Cup,
        UnitData {
            amount: 250,
            divider: 1,
        },
    );
    let product = Box::new(basic_product("Test Product", allowed_units));
    let constraint = ProductConstraint::new(product, None, None, AllowedUnitsType::Cup);
    assert!(constraint.is_some());
    let constraint = constraint.unwrap();
    assert_eq!(constraint.low_bound(), None);
    assert_eq!(constraint.up_bound(), None);
}

#[test]
fn test_product_constraint_equal_bounds() {
    let mut allowed_units = AllowedUnits::new();
    allowed_units.insert(
        AllowedUnitsType::Cup,
        UnitData {
            amount: 250,
            divider: 1,
        },
    );
    let product = Box::new(basic_product("Test Product", allowed_units));
    let constraint = ProductConstraint::new(product, Some(3), Some(3), AllowedUnitsType::Cup);
    assert!(constraint.is_some());
    let constraint = constraint.unwrap();
    assert_eq!(constraint.low_bound(), Some(3));
    assert_eq!(constraint.up_bound(), Some(3));
}

fn initialize_meal_with_products() -> MealConstraint {
    let mut units1 = AllowedUnits::new();
    units1.insert(
        AllowedUnitsType::Cup,
        UnitData {
            amount: 200,
            divider: 1,
        },
    );
    units1.insert(
        AllowedUnitsType::Piece,
        UnitData {
            amount: 150,
            divider: 1,
        },
    );
    let mut units2 = AllowedUnits::new();
    units2.insert(
        AllowedUnitsType::Tablespoon,
        UnitData {
            amount: 10,
            divider: 1,
        },
    );
    let mut units3 = AllowedUnits::new();
    units3.insert(
        AllowedUnitsType::Piece,
        UnitData {
            amount: 100,
            divider: 1,
        },
    );
    let mut units4 = AllowedUnits::new();
    units4.insert(
        AllowedUnitsType::Piece,
        UnitData {
            amount: 50,
            divider: 1,
        },
    );
    let prod1 = Box::new(basic_product("Apple", units1));
    let prod2 = Box::new(basic_product("Banana", units2));
    let prod3 = Box::new(basic_product("Carrot", units3));
    let prod4 = Box::new(basic_product("Carrot", units4));

    let pc1 = ProductConstraint::new(prod1, Some(1), Some(2), AllowedUnitsType::Cup);
    let pc2 = ProductConstraint::new(prod2, Some(2), Some(3), AllowedUnitsType::Tablespoon);
    let pc3 = ProductConstraint::new(prod3, Some(3), Some(4), AllowedUnitsType::Custom);
    let pc4 = ProductConstraint::new(prod4, Some(3), Some(4), AllowedUnitsType::Piece);
    let mut products = Vec::new();
    products.push(pc1.unwrap());
    products.push(pc2.unwrap());
    assert!(pc3.is_none());
    products.push(pc4.unwrap());

    let mut nutrients = Vec::new();
    nutrients.push(
        NutrientConstraint::new(
            NutrientType::Macro(MacroElementsType::Protein),
            Some(1000),
            Some(2000),
        )
        .unwrap(),
    );
    nutrients.push(
        NutrientConstraint::new(
            NutrientType::Macro(MacroElementsType::Fat),
            Some(500),
            Some(1500),
        )
        .unwrap(),
    );
    nutrients.push(
        NutrientConstraint::new(
            NutrientType::Macro(MacroElementsType::Carbs),
            Some(3000),
            Some(6000),
        )
        .unwrap(),
    );

    MealConstraint {
        products,
        nutrients,
    }
}

#[test]
fn meal_constraint_test_meal_add_remove_middle_product() {
    let mut meal = initialize_meal_with_products();
    let removed = meal.products.remove(1);
    assert!(removed.food().name() == "Banana");
    assert!(meal.products[1].food().name() == "Carrot");
}

#[test]
fn meal_constraint_test_meal_add_remove_middle_nutrient() {
    let mut meal = initialize_meal_with_products();
    let removed = meal.nutrients.remove(1);
    assert_eq!(
        removed.element(),
        NutrientType::Macro(MacroElementsType::Fat)
    );
    assert_eq!(
        meal.nutrients[1].element(),
        NutrientType::Macro(MacroElementsType::Carbs)
    );
}

#[test]
fn meal_constraint_test_meal_modify_middle_nutrient() {
    let mut meal = initialize_meal_with_products();
    if let Some(nutrient) = meal.nutrients.get_mut(1) {
        nutrient.update(
            NutrientConstraint::new(nutrient.element(), Some(700), Some(1700)).unwrap(),
        );
    }
    let modified = &meal.nutrients[1];
    assert_eq!(modified.min(), Some(700));
    assert_eq!(modified.max(), Some(1700));
}

#[test]
fn meal_constraint_test_meal_modify_middle_product() {
    let mut meal = initialize_meal_with_products();
    if let Some(product_constraint) = meal.products.get_mut(1) {
        let replacement = ProductConstraint::new(
            Box::new(product_constraint.food().clone()),
            Some(4),
            Some(5),
            product_constraint.unit(),
        )
        .unwrap();
        product_constraint.update(replacement);
    }
    let modified = &meal.products[1];
    assert_eq!(modified.low_bound(), Some(4));
    assert_eq!(modified.up_bound(), Some(5));
}

fn init_day_plan() -> DayMealPlanConstraint {
    let breakfast = MealConstraint {
        products: Vec::new(),
        nutrients: Vec::new(),
    };
    let lunch = MealConstraint {
        products: Vec::new(),
        nutrients: Vec::new(),
    };
    let dinner = MealConstraint {
        products: Vec::new(),
        nutrients: Vec::new(),
    };
    let mut meals = MealsByName::new();
    meals.insert("breakfast".to_string(), breakfast);
    meals.insert("lunch".to_string(), lunch);
    meals.insert("dinner".to_string(), dinner);
    DayMealPlanConstraint {
        meals,
        nutrients: Vec::new(),
    }
}

#[test]
fn day_plan_constraint_test_day_meal_plan_add_remove_middle_meal() {
    let mut plan = init_day_plan();
    let keys = plan.meals.keys();
    let removed = plan.meals.remove(&keys[1]);
    assert!(removed.is_some());
    plan.meals.insert(
        keys[1].clone(),
        MealConstraint {
            products: Vec::new(),
            nutrients: Vec::new(),
        },
    );
    assert!(plan.meals.contains_key(&keys[1]));
}
