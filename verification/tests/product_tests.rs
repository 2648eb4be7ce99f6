use meal_planner::AllowedUnits;
use meal_planner::AllowedUnitsType;
use meal_planner::MacroElements;
use meal_planner::MacroElementsType;
use meal_planner::MicroNutrients;
use meal_planner::MicroNutrientsType;
use meal_planner::NutrientType;
use meal_planner::Product;
use meal_planner::UnitData;

#[test]
fn product_test_product_new_and_accessors() {
    let macro_elements = Box::new(MacroElements::new(100, 200, 300, 400, 500));
    let micro_nutrients = Box::new(MicroNutrients::default());
    let mut allowed_units = AllowedUnits::new();
    allowed_units.insert(
        AllowedUnitsType::Gram,
        UnitData {
            amount: 123,
            divider: 1,
        },
    );
    let product = Product::new(
        "TestName".to_string(),
        Some("TestBrand".to_string()),
        macro_elements,
        micro_nutrients,
        allowed_units,
    );
    assert_eq!(product.name(), "TestName");
    assert_eq!(product.brand(), Some("TestBrand"));
    assert_eq!(product.macro_elements.get(MacroElementsType::Fat), 100);
    assert_eq!(product.micro_nutrients.get(MicroNutrientsType::Fiber), None);
    let mut expected_allowed_units = AllowedUnits::new();
    expected_allowed_units.insert(
        AllowedUnitsType::Gram,
        UnitData {
            amount: 123,
            divider: 1,
        },
    );
    assert_eq!(product.allowed_units, expected_allowed_units);
}

#[test]
fn product_test_product_creation() {
    let macro_elements = Box::new(MacroElements::new(100, 50, 200, 50, 300));
    let mut micro_nutrients = Box::new(MicroNutrients::default());
    micro_nutrients.set(MicroNutrientsType::Fiber, Some(250));
    let mut allowed_units = AllowedUnits::new();
    allowed_units.insert(
        AllowedUnitsType::Gram,
        UnitData {
            amount: 100,
            divider: 1,
        },
    );
    let product = Product {
        name: "Test Product".to_string(),
        brand: Some("Test Brand".to_string()),
        macro_elements,
        micro_nutrients,
        allowed_units,
    };
    assert_eq!(product.name, "Test Product");
    assert_eq!(product.brand.as_deref(), Some("Test Brand"));
    assert_eq!(product.macro_elements.get(MacroElementsType::Fat), 100);
    assert_eq!(
        product.micro_nutrients.get(MicroNutrientsType::Fiber),
        Some(250)
    );
    assert_eq!(product.micro_nutrients.get(MicroNutrientsType::Zinc), None);
    let mut expected_allowed_units = AllowedUnits::new();
    expected_allowed_units.insert(
        AllowedUnitsType::Gram,
        UnitData {
            amount: 100,
            divider: 1,
        },
    );
    assert_eq!(product.allowed_units, expected_allowed_units);
}

#[test]
fn test_product_default_allowed_units() {
    let macro_elements = Box::new(MacroElements::new(0, 0, 0, 0, 0));
    let micro_nutrients = Box::new(MicroNutrients::default());
    let product = Product::new(
        "NoUnits".to_string(),
        None,
        macro_elements,
        micro_nutrients,
        AllowedUnits::new(),
    );
    let mut expected_allowed_units = AllowedUnits::new();
    expected_allowed_units.insert(
        AllowedUnitsType::Gram,
        UnitData {
            amount: 1,
            divider: 1,
        },
    );
    assert_eq!(product.allowed_units, expected_allowed_units);
    assert_eq!(product.brand(), None);
}

#[test]
fn test_common_units_display() {
    assert_eq!(AllowedUnitsType::Gram.display_name(), "gram");
    assert_eq!(AllowedUnitsType::Cup.display_name(), "cup");
    assert_eq!(AllowedUnitsType::Tablespoon.display_name(), "tablespoon");
    assert_eq!(AllowedUnitsType::Teaspoon.display_name(), "teaspoon");
    assert_eq!(AllowedUnitsType::Box.display_name(), "box");
    assert_eq!(AllowedUnitsType::Custom.display_name(), "custom");
}

#[test]
fn test_product_id_with_brand() {
    let macro_elements = Box::new(MacroElements::new(100, 200, 300, 400, 500));
    let micro_nutrients = Box::new(MicroNutrients::default());
    let product = Product::new(
        "Apple".to_string(),
        Some("FreshFarms".to_string()),
        macro_elements,
        micro_nutrients,
        AllowedUnits::new(),
    );
    assert_eq!(product.id(), "Apple (FreshFarms)");
}

#[test]
fn test_product_id_without_brand() {
    let macro_elements = Box::new(MacroElements::new(100, 200, 300, 400, 500));
    let micro_nutrients = Box::new(MicroNutrients::default());
    let product = Product::new(
        "Banana".to_string(),
        None,
        macro_elements,
        micro_nutrients,
        AllowedUnits::new(),
    );
    assert_eq!(product.id(), "Banana");
}

#[test]
fn test_product_id_with_empty_brand() {
    let macro_elements = Box::new(MacroElements::new(100, 200, 300, 400, 500));
    let micro_nutrients = Box::new(MicroNutrients::default());
    let product = Product::new(
        "Pear".to_string(),
        Some(String::new()),
        macro_elements,
        micro_nutrients,
        AllowedUnits::new(),
    );
    assert_eq!(product.id(), "Pear");
}

#[test]
fn test_allowed_units_empty_inserts_default() {
    let macro_elements = Box::new(MacroElements::new(0, 0, 0, 0, 0));
    let micro_nutrients = Box::new(MicroNutrients::default());
    let product = Product::new(
        "DefaultUnit".to_string(),
        None,
        macro_elements,
        micro_nutrients,
        AllowedUnits::new(),
    );
    assert_eq!(
        product.allowed_units.get(AllowedUnitsType::Gram),
        Some(UnitData {
            amount: 1,
            divider: 1
        })
    );
    assert_eq!(product.allowed_units.len(), 1);
}

#[test]
fn test_get_nutrient_amount_macro_and_micro() {
    let macro_elements = Box::new(MacroElements::new(900, 100, 400, 200, 300));
    let mut micro_nutrients = Box::new(MicroNutrients::default());
    micro_nutrients.set(MicroNutrientsType::Sodium, Some(40));
    let product = Product::new(
        "Salted".to_string(),
        None,
        macro_elements,
        micro_nutrients,
        AllowedUnits::new(),
    );
    assert_eq!(
        product.get_nutrient_amount(NutrientType::Macro(MacroElementsType::Fat)),
        Some(900)
    );
    // calories (hundredths) = 9*900 + 4*400 + 4*300 = 10900
    assert_eq!(
        product.get_nutrient_amount(NutrientType::Macro(MacroElementsType::Calories)),
        Some(10900)
    );
    assert_eq!(
        product.get_nutrient_amount(NutrientType::Micro(MicroNutrientsType::Sodium)),
        Some(40)
    );
    assert_eq!(
        product.get_nutrient_amount(NutrientType::Micro(MicroNutrientsType::Zinc)),
        None
    );
}
