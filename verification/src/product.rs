//! Food products: nutrient records per 100 g plus an allowed-unit table.
use vstd::prelude::*;

use crate::nutrients::MacroElements;
use crate::nutrients::MicroNutrients;
use crate::nutrients::NutrientType;
use crate::units::AllowedUnits;
use crate::units::AllowedUnitsType;
use crate::units::UnitData;

verus! {

/// A food product. Every product carries a Gram unit: when the caller
/// supplies none, the constructor adds one with `amount = 1, divider = 1`.
#[derive(Clone, Debug, PartialEq)]
pub struct Product {
    pub name: String,
    pub brand: Option<String>,
    pub macro_elements: Box<MacroElements>,
    pub micro_nutrients: Box<MicroNutrients>,
    pub allowed_units: AllowedUnits,
}

impl Product {
    /// The macro-nutrient amounts are in range and the implicit Gram unit
    /// is present.
    pub open spec fn wf(self) -> bool {
        self.macro_elements.wf() && self.allowed_units.spec_get(AllowedUnitsType::Gram) is Some
    }

    /// The product's identity: its name, or "name (brand)" when a
    /// non-empty brand is present.
    pub open spec fn spec_id(self) -> Seq<char> {
        match self.brand {
            Some(b) => if b@.len() > 0 {
                self.name@ + " ("@ + b@ + ")"@
            } else {
                self.name@
            },
            None => self.name@,
        }
    }

    /// The per-100g amount of a nutrient target: always present for a
    /// macro nutrient, present-or-absent for a micro nutrient.
    pub open spec fn spec_nutrient_amount(self, nutrient: NutrientType) -> Option<int> {
        match nutrient {
            NutrientType::Macro(m) => Some(self.macro_elements.spec_get(m)),
            NutrientType::Micro(m) => match self.micro_nutrients.spec_get(m) {
                Some(v) => Some(v as int),
                None => None,
            },
        }
    }

    pub fn new(
        name: String,
        brand: Option<String>,
        macro_elements: Box<MacroElements>,
        micro_nutrients: Box<MicroNutrients>,
        allowed_units: AllowedUnits,
    ) -> (r: Product)
        requires
            macro_elements.wf(),
        ensures
            r.name == name,
            r.brand == brand,
            r.macro_elements == macro_elements,
            r.micro_nutrients == micro_nutrients,
            r.allowed_units == if allowed_units.spec_get(AllowedUnitsType::Gram) is Some {
                allowed_units
            } else {
                allowed_units.spec_insert(AllowedUnitsType::Gram, UnitData { amount: 1, divider: 1 })
            },
            r.wf(),
    {
        let mut units = allowed_units;
        if !units.contains_key(AllowedUnitsType::Gram) {
            units.insert(AllowedUnitsType::Gram, UnitData { amount: 1, divider: 1 });
        }
        Product { name, brand, macro_elements, micro_nutrients, allowed_units: units }
    }

    pub fn name(&self) -> (r: &str)
        ensures
            r@ == self.name@,
    {
        self.name.as_str()
    }

    pub fn brand(&self) -> (r: Option<&str>)
        ensures
            match r {
                Some(b) => self.brand matches Some(o) && b@ == o@,
                None => self.brand is None,
            },
    {
        match &self.brand {
            Some(b) => Some(b.as_str()),
            None => None,
        }
    }

    pub fn id(&self) -> (r: String)
        ensures
            r@ == self.spec_id(),
    {
        match &self.brand {
            Some(b) => {
                if b.as_str().is_empty() {
                    self.name.clone()
                } else {
                    let mut s = self.name.clone();
                    s.append(" (");
                    s.append(b.as_str());
                    s.append(")");
                    s
                }
            },
            None => self.name.clone(),
        }
    }

    pub fn get_nutrient_amount(&self, nutrient: NutrientType) -> (r: Option<u32>)
        requires
            self.wf(),
        ensures
            match r {
                Some(v) => self.spec_nutrient_amount(nutrient) == Some(v as int),
                None => self.spec_nutrient_amount(nutrient) is None,
            },
    {
        match nutrient {
            NutrientType::Macro(m) => Some(self.macro_elements.get(m)),
            NutrientType::Micro(m) => self.micro_nutrients.get(m),
        }
    }

    /// A field-by-field copy that is known to equal the value it copies.
    pub fn duplicate(&self) -> (r: Product)
        ensures
            r == *self,
    {
        Product {
            name: self.name.clone(),
            brand: match &self.brand {
                Some(b) => Some(b.clone()),
                None => None,
            },
            macro_elements: Box::new(*self.macro_elements),
            micro_nutrients: Box::new(*self.micro_nutrients),
            allowed_units: self.allowed_units,
        }
    }
}

} // verus!
