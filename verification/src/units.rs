//! Measurement units for products.
//!
//! Each product carries a table of allowed units; an allowed unit converts
//! to grams through `{amount, divider}`: one whole unit weighs `amount`
//! grams and may be split into `divider` sub-units.
use vstd::prelude::*;

verus! {

/// A named measurement a product can be expressed in.
#[derive(Clone, Copy, Debug, PartialEq, Eq, Structural)]
pub enum AllowedUnitsType {
    Gram,
    Piece,
    Cup,
    Tablespoon,
    Teaspoon,
    Box,
    Custom,
}

impl AllowedUnitsType {
    /// The human-readable name of this unit.
    pub open spec fn spec_display_name(self) -> Seq<char> {
        match self {
            AllowedUnitsType::Gram => "gram"@,
            AllowedUnitsType::Piece => "piece"@,
            AllowedUnitsType::Cup => "cup"@,
            AllowedUnitsType::Tablespoon => "tablespoon"@,
            AllowedUnitsType::Teaspoon => "teaspoon"@,
            AllowedUnitsType::Box => "box"@,
            AllowedUnitsType::Custom => "custom"@,
        }
    }

    pub fn display_name(&self) -> (r: String)
        ensures
            r@ == self.spec_display_name(),
    {
        match self {
            AllowedUnitsType::Gram => String::from_str("gram"),
            AllowedUnitsType::Piece => String::from_str("piece"),
            AllowedUnitsType::Cup => String::from_str("cup"),
            AllowedUnitsType::Tablespoon => String::from_str("tablespoon"),
            AllowedUnitsType::Teaspoon => String::from_str("teaspoon"),
            AllowedUnitsType::Box => String::from_str("box"),
            AllowedUnitsType::Custom => String::from_str("custom"),
        }
    }

    /// The name of the variant as written in source, used in error
    /// messages that must identify the unit exactly.
    pub open spec fn spec_debug_name(self) -> Seq<char> {
        match self {
            AllowedUnitsType::Gram => "Gram"@,
            AllowedUnitsType::Piece => "Piece"@,
            AllowedUnitsType::Cup => "Cup"@,
            AllowedUnitsType::Tablespoon => "Tablespoon"@,
            AllowedUnitsType::Teaspoon => "Teaspoon"@,
            AllowedUnitsType::Box => "Box"@,
            AllowedUnitsType::Custom => "Custom"@,
        }
    }

    pub fn debug_name(&self) -> (r: String)
        ensures
            r@ == self.spec_debug_name(),
    {
        match self {
            AllowedUnitsType::Gram => String::from_str("Gram"),
            AllowedUnitsType::Piece => String::from_str("Piece"),
            AllowedUnitsType::Cup => String::from_str("Cup"),
            AllowedUnitsType::Tablespoon => String::from_str("Tablespoon"),
            AllowedUnitsType::Teaspoon => String::from_str("Teaspoon"),
            AllowedUnitsType::Box => String::from_str("Box"),
            AllowedUnitsType::Custom => String::from_str("Custom"),
        }
    }
}

/// How one unit of a product converts to grams: a whole unit weighs
/// `amount` grams and is divisible into `divider` sub-units.
#[derive(Clone, Copy, Debug, PartialEq, Eq, Structural)]
pub struct UnitData {
    pub amount: u16,
    pub divider: u16,
}

/// A product's allowed-unit table: at most one conversion rule per unit.
#[derive(Clone, Copy, Debug, PartialEq, Eq)]
pub struct AllowedUnits {
    pub gram: Option<UnitData>,
    pub piece: Option<UnitData>,
    pub cup: Option<UnitData>,
    pub tablespoon: Option<UnitData>,
    pub teaspoon: Option<UnitData>,
    pub box_unit: Option<UnitData>,
    pub custom: Option<UnitData>,
}

impl AllowedUnits {
    /// The entry for one unit, absent units as `None`.
    pub open spec fn spec_get(self, unit: AllowedUnitsType) -> Option<UnitData> {
        match unit {
            AllowedUnitsType::Gram => self.gram,
            AllowedUnitsType::Piece => self.piece,
            AllowedUnitsType::Cup => self.cup,
            AllowedUnitsType::Tablespoon => self.tablespoon,
            AllowedUnitsType::Teaspoon => self.teaspoon,
            AllowedUnitsType::Box => self.box_unit,
            AllowedUnitsType::Custom => self.custom,
        }
    }

    /// The table as a mathematical map from unit to conversion rule.
    pub open spec fn view(self) -> Map<AllowedUnitsType, UnitData> {
        Map::new(|u: AllowedUnitsType| self.spec_get(u) is Some, |u: AllowedUnitsType| self.spec_get(u)->Some_0)
    }

    /// An empty table.
    pub fn new() -> (r: AllowedUnits)
        ensures
            forall|u: AllowedUnitsType| #[trigger] r.spec_get(u) is None,
    {
        AllowedUnits {
            gram: None,
            piece: None,
            cup: None,
            tablespoon: None,
            teaspoon: None,
            box_unit: None,
            custom: None,
        }
    }

    /// The table with one unit's rule replaced.
    pub open spec fn spec_insert(self, unit: AllowedUnitsType, data: UnitData) -> AllowedUnits {
        match unit {
            AllowedUnitsType::Gram => AllowedUnits { gram: Some(data), ..self },
            AllowedUnitsType::Piece => AllowedUnits { piece: Some(data), ..self },
            AllowedUnitsType::Cup => AllowedUnits { cup: Some(data), ..self },
            AllowedUnitsType::Tablespoon => AllowedUnits { tablespoon: Some(data), ..self },
            AllowedUnitsType::Teaspoon => AllowedUnits { teaspoon: Some(data), ..self },
            AllowedUnitsType::Box => AllowedUnits { box_unit: Some(data), ..self },
            AllowedUnitsType::Custom => AllowedUnits { custom: Some(data), ..self },
        }
    }

    /// Sets the conversion rule for a unit, replacing any existing rule.
    pub fn insert(&mut self, unit: AllowedUnitsType, data: UnitData)
        ensures
            *final(self) == old(self).spec_insert(unit, data),
            final(self).spec_get(unit) == Some(data),
    {
        match unit {
            AllowedUnitsType::Gram => self.gram = Some(data),
            AllowedUnitsType::Piece => self.piece = Some(data),
            AllowedUnitsType::Cup => self.cup = Some(data),
            AllowedUnitsType::Tablespoon => self.tablespoon = Some(data),
            AllowedUnitsType::Teaspoon => self.teaspoon = Some(data),
            AllowedUnitsType::Box => self.box_unit = Some(data),
            AllowedUnitsType::Custom => self.custom = Some(data),
        }
    }

    pub fn get(&self, unit: AllowedUnitsType) -> (r: Option<UnitData>)
        ensures
            r == self.spec_get(unit),
    {
        match unit {
            AllowedUnitsType::Gram => self.gram,
            AllowedUnitsType::Piece => self.piece,
            AllowedUnitsType::Cup => self.cup,
            AllowedUnitsType::Tablespoon => self.tablespoon,
            AllowedUnitsType::Teaspoon => self.teaspoon,
            AllowedUnitsType::Box => self.box_unit,
            AllowedUnitsType::Custom => self.custom,
        }
    }

    pub fn contains_key(&self, unit: AllowedUnitsType) -> (r: bool)
        ensures
            r == (self.spec_get(unit) is Some),
    {
        self.get(unit).is_some()
    }

    /// How many units have a rule.
    pub open spec fn spec_len(self) -> int {
        Self::count(self.gram) + Self::count(self.piece) + Self::count(self.cup) + Self::count(
            self.tablespoon,
        ) + Self::count(self.teaspoon) + Self::count(self.box_unit) + Self::count(self.custom)
    }

    pub open spec fn count(entry: Option<UnitData>) -> int {
        if entry is Some {
            1
        } else {
            0
        }
    }

    pub fn len(&self) -> (r: usize)
        ensures
            r == self.spec_len(),
    {
        let mut n: usize = 0;
        if self.gram.is_some() {
            n = n + 1;
        }
        if self.piece.is_some() {
            n = n + 1;
        }
        if self.cup.is_some() {
            n = n + 1;
        }
        if self.tablespoon.is_some() {
            n = n + 1;
        }
        if self.teaspoon.is_some() {
            n = n + 1;
        }
        if self.box_unit.is_some() {
            n = n + 1;
        }
        if self.custom.is_some() {
            n = n + 1;
        }
        n
    }
}

} // verus!
