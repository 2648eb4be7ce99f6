//! The nutrient-equivalence swapper: a pure calculator, no solver
//! involvement.
//!
//! Given an input product and quantity, an output product and a target
//! nutrient, the equivalent output quantity is
//! `input_quantity * nutrient_per_100g(input) / nutrient_per_100g(output)`.
//! The result comes back as a low/high bracket one unit-count apart at
//! the requested unit's granularity, computed in exact integer
//! arithmetic: quantities are fixed-point hundredths of a gram, so the
//! bracket's low bound is the exact floor of the equivalent amount.
use vstd::prelude::*;

use crate::nutrients::NutrientType;
use crate::product::Product;
use crate::solver::Fraction;
use crate::units::AllowedUnitsType;

verus! {

/// The exact equivalent amount, in unit counts at the requested unit's
/// granularity, floored: with the input amount `a` in hundredths of a
/// gram, `floor(a * n_in * divider / (n_out * amount * 100))`.
pub open spec fn swap_unit_count_floor(
    amount: int,
    n_in: int,
    n_out: int,
    unit_amount: int,
    divider: int,
) -> int {
    (amount * n_in * divider) / (n_out * unit_amount * 100)
}

/// The inputs on which the swap succeeds: both products carry the target
/// nutrient and the input product carries the requested unit.
pub open spec fn swap_applicable(
    input: Product,
    output: Product,
    nutrient: NutrientType,
    unit: AllowedUnitsType,
) -> bool {
    &&& input.spec_nutrient_amount(nutrient) is Some
    &&& output.spec_nutrient_amount(nutrient) is Some
    &&& input.allowed_units.spec_get(unit) is Some
}

/// What a successful swap returns for given inputs, over the products'
/// stored values.
pub open spec fn swap_floor_of(
    input: Product,
    amount: int,
    output: Product,
    nutrient: NutrientType,
    unit: AllowedUnitsType,
) -> int {
    swap_unit_count_floor(
        amount,
        input.spec_nutrient_amount(nutrient)->Some_0,
        output.spec_nutrient_amount(nutrient)->Some_0,
        input.allowed_units.spec_get(unit)->Some_0.amount as int,
        input.allowed_units.spec_get(unit)->Some_0.divider as int,
    )
}

/// The swap's machine limits: the output product's nutrient amount and
/// the requested unit's gram amount are nonzero (the formula divides by
/// them), and the floored unit count leaves room for the bracket's high
/// end in 16 bits.
pub open spec fn swap_in_range(
    input: Product,
    amount: int,
    output: Product,
    nutrient: NutrientType,
    unit: AllowedUnitsType,
) -> bool {
    swap_applicable(input, output, nutrient, unit) ==> {
        &&& output.spec_nutrient_amount(nutrient)->Some_0 > 0
        &&& input.allowed_units.spec_get(unit)->Some_0.amount > 0
        &&& swap_floor_of(input, amount, output, nutrient, unit) + 1 <= u16::MAX
    }
}

/// The error message naming a product and the nutrient it lacks.
pub open spec fn missing_nutrient_msg(
    role: Seq<char>,
    id: Seq<char>,
    nutrient: NutrientType,
) -> Seq<char> {
    role + " product '"@ + id + "' does not have nutrient '"@ + nutrient.spec_debug_name() + "'"@
}

/// The error message naming a product and the allowed unit it lacks.
pub open spec fn missing_unit_msg(id: Seq<char>, unit: AllowedUnitsType) -> Seq<char> {
    "Input product '"@ + id + "' does not have allowed unit '"@ + unit.spec_debug_name() + "'"@
}

/// The standalone nutrient-equivalence calculator.
pub struct ProductSwapper {}

impl ProductSwapper {
    /// The bracket for an equivalent quantity in an arbitrary allowed
    /// unit of the input product: two fractions one unit count apart at
    /// the unit's granularity. Fails, naming the offending product and
    /// the missing item, when either product lacks the nutrient or the
    /// input product lacks the unit.
    pub fn get_amount_of_swapped_product(
        input: &Product,
        amount: u32,
        output: &Product,
        nutrient_equivalent: NutrientType,
        allowed_units: AllowedUnitsType,
    ) -> (r: Result<(Fraction, Fraction), String>)
        requires
            input.wf(),
            output.wf(),
            swap_in_range(*input, amount as int, *output, nutrient_equivalent, allowed_units),
        ensures
            r is Ok <==> swap_applicable(*input, *output, nutrient_equivalent, allowed_units),
            r matches Ok((low, high)) ==> {
                &&& low.numerator as int == swap_floor_of(
                    *input,
                    amount as int,
                    *output,
                    nutrient_equivalent,
                    allowed_units,
                )
                &&& high.numerator == low.numerator + 1
                &&& low.denominator == input.allowed_units.spec_get(
                    allowed_units,
                )->Some_0.divider
                &&& high.denominator == low.denominator
            },
            r matches Err(m) ==> {
                ||| (input.spec_nutrient_amount(nutrient_equivalent) is None && m@
                    == missing_nutrient_msg("Input"@, input.spec_id(), nutrient_equivalent))
                ||| (input.spec_nutrient_amount(nutrient_equivalent) is Some
                    && output.spec_nutrient_amount(nutrient_equivalent) is None && m@
                    == missing_nutrient_msg("Output"@, output.spec_id(), nutrient_equivalent))
                ||| (input.spec_nutrient_amount(nutrient_equivalent) is Some
                    && output.spec_nutrient_amount(nutrient_equivalent) is Some
                    && input.allowed_units.spec_get(allowed_units) is None && m@
                    == missing_unit_msg(input.spec_id(), allowed_units))
            },
    {
        let nutrient_amount = match input.get_nutrient_amount(nutrient_equivalent) {
            Some(a) => a,
            None => {
                let mut msg = String::from_str("Input");
                msg.append(" product '");
                msg.append(input.id().as_str());
                msg.append("' does not have nutrient '");
                msg.append(nutrient_equivalent.debug_name().as_str());
                msg.append("'");
                return Err(msg);
            },
        };
        let nutrient_amount_output = match output.get_nutrient_amount(nutrient_equivalent) {
            Some(a) => a,
            None => {
                let mut msg = String::from_str("Output");
                msg.append(" product '");
                msg.append(output.id().as_str());
                msg.append("' does not have nutrient '");
                msg.append(nutrient_equivalent.debug_name().as_str());
                msg.append("'");
                return Err(msg);
            },
        };
        let unit_size = match input.allowed_units.get(allowed_units) {
            Some(u) => u,
            None => {
                let mut msg = String::from_str("Input product '");
                msg.append(input.id().as_str());
                msg.append("' does not have allowed unit '");
                msg.append(allowed_units.debug_name().as_str());
                msg.append("'");
                return Err(msg);
            },
        };

        proof {
            assert((amount as int) * (nutrient_amount as int) >= 0 && (amount as int) * (
            nutrient_amount as int) <= 0xffff_ffff * 0xffff_ffff) by (nonlinear_arith)
                requires
                    0 <= amount <= 0xffff_ffffu32,
                    0 <= nutrient_amount <= 0xffff_ffffu32,
            ;
            assert((amount as int) * (nutrient_amount as int) * (unit_size.divider as int) >= 0 && (
            amount as int) * (nutrient_amount as int) * (unit_size.divider as int) <= 0xffff_ffff
                * 0xffff_ffff * 0xffff) by (nonlinear_arith)
                requires
                    0 <= (amount as int) * (nutrient_amount as int) <= 0xffff_ffff * 0xffff_ffff,
                    0 <= unit_size.divider <= 0xffffu16,
            ;
            assert((nutrient_amount_output as int) * (unit_size.amount as int) >= 0 && (
            nutrient_amount_output as int) * (unit_size.amount as int) <= 0xffff_ffff * 0xffff)
                by (nonlinear_arith)
                requires
                    0 <= nutrient_amount_output <= 0xffff_ffffu32,
                    0 <= unit_size.amount <= 0xffffu16,
            ;
            assert((nutrient_amount_output as int) * (unit_size.amount as int) * 100 > 0 && (
            nutrient_amount_output as int) * (unit_size.amount as int) * 100 <= 0xffff_ffff * 0xffff
                * 100) by (nonlinear_arith)
                requires
                    0 <= (nutrient_amount_output as int) * (unit_size.amount as int) <= 0xffff_ffff
                        * 0xffff,
                    nutrient_amount_output > 0,
                    unit_size.amount > 0,
            ;
        }
        let numerator_wide: u128 = (amount as u128) * (nutrient_amount as u128) * (
        unit_size.divider as u128);
        let denominator_wide: u128 = (nutrient_amount_output as u128) * (unit_size.amount as u128)
            * 100;
        let floored_wide: u128 = numerator_wide / denominator_wide;
        let floored: u16 = floored_wide as u16;
        proof {
            assert(floored_wide as int == swap_floor_of(
                *input,
                amount as int,
                *output,
                nutrient_equivalent,
                allowed_units,
            ));
            assert(floored as int == floored_wide as int);
        }

        let low_calculated_amount = Fraction { numerator: floored, denominator: unit_size.divider };
        let high_calculated_amount = Fraction {
            numerator: floored + 1,
            denominator: unit_size.divider,
        };
        Ok((low_calculated_amount, high_calculated_amount))
    }

    /// The grams-only convenience form: the same bracket expressed in
    /// whole grams, one gram apart, with the true equivalent amount
    /// inside it. In the success case, with `A` the input amount times
    /// the input's per-100g value and `D` the output's per-100g value
    /// times the Gram unit's amount times 100, the bracket satisfies
    /// `low * D <= A < high * D`: the exact equivalent gram value
    /// `A / D` lies in `[low, high]`, and `high == low + 1`.
    pub fn get_grams_of_swapped_product(
        input: &Product,
        amount: u32,
        output: &Product,
        nutrient_equivalent: NutrientType,
    ) -> (r: Result<(u16, u16), String>)
        requires
            input.wf(),
            output.wf(),
            swap_in_range(
                *input,
                amount as int,
                *output,
                nutrient_equivalent,
                AllowedUnitsType::Gram,
            ),
            input.allowed_units.spec_get(AllowedUnitsType::Gram)->Some_0.divider > 0,
        ensures
            r is Ok <==> swap_applicable(
                *input,
                *output,
                nutrient_equivalent,
                AllowedUnitsType::Gram,
            ),
            r matches Ok((low, high)) ==> {
                let a_total = (amount as int) * input.spec_nutrient_amount(
                    nutrient_equivalent,
                )->Some_0;
                let d_total = output.spec_nutrient_amount(nutrient_equivalent)->Some_0
                    * input.allowed_units.spec_get(AllowedUnitsType::Gram)->Some_0.amount * 100;
                &&& high == low + 1
                &&& (low as int) * d_total <= a_total
                &&& a_total < (high as int) * d_total
            },
            r matches Err(m) ==> {
                ||| (input.spec_nutrient_amount(nutrient_equivalent) is None && m@
                    == missing_nutrient_msg("Input"@, input.spec_id(), nutrient_equivalent))
                ||| (input.spec_nutrient_amount(nutrient_equivalent) is Some
                    && output.spec_nutrient_amount(nutrient_equivalent) is None && m@
                    == missing_nutrient_msg("Output"@, output.spec_id(), nutrient_equivalent))
            },
    {
        let (low, high) = match Self::get_amount_of_swapped_product(
            input,
            amount,
            output,
            nutrient_equivalent,
            AllowedUnitsType::Gram,
        ) {
            Ok(pair) => pair,
            Err(e) => {
                return Err(e);
            },
        };
        let divider = low.denominator;
        let low_grams: u16 = low.numerator / divider;
        let high_wide: u32 = ((high.numerator as u32) + (divider as u32) - 1) / (divider as u32);
        proof {
            let a_total = (amount as int) * input.spec_nutrient_amount(
                nutrient_equivalent,
            )->Some_0;
            let d_total = output.spec_nutrient_amount(nutrient_equivalent)->Some_0
                * input.allowed_units.spec_get(AllowedUnitsType::Gram)->Some_0.amount * 100;
            let d = divider as int;
            let n = low.numerator as int;
            assert(d_total > 0) by (nonlinear_arith)
                requires
                    d_total == output.spec_nutrient_amount(nutrient_equivalent)->Some_0
                        * input.allowed_units.spec_get(AllowedUnitsType::Gram)->Some_0.amount * 100,
                    output.spec_nutrient_amount(nutrient_equivalent)->Some_0 > 0,
                    input.allowed_units.spec_get(AllowedUnitsType::Gram)->Some_0.amount > 0,
            ;
            vstd::arithmetic::div_mod::lemma_fundamental_div_mod(a_total * d, d_total);
            vstd::arithmetic::div_mod::lemma_mod_bound(a_total * d, d_total);
            vstd::arithmetic::div_mod::lemma_fundamental_div_mod(n, d);
            vstd::arithmetic::div_mod::lemma_mod_bound(n, d);
            vstd::arithmetic::div_mod::lemma_fundamental_div_mod(n + d, d);
            vstd::arithmetic::div_mod::lemma_mod_bound(n + d, d);
            assert((n + d) / d == n / d + 1) by (nonlinear_arith)
                requires
                    n + d == d * ((n + d) / d) + ((n + d) % d),
                    0 <= (n + d) % d < d,
                    n == d * (n / d) + (n % d),
                    0 <= n % d < d,
                    d > 0,
            ;
            assert(0 <= n / d <= n && (n / d) * d_total <= a_total && a_total < (n / d + 1)
                * d_total) by (nonlinear_arith)
                requires
                    a_total * d == d_total * n + ((a_total * d) % d_total),
                    0 <= (a_total * d) % d_total < d_total,
                    n == d * (n / d) + (n % d),
                    0 <= n % d < d,
                    d > 0,
                    d_total > 0,
                    n >= 0,
            ;
            assert(high_wide as int == (n + d) / d);
            assert(high_wide <= 0xffff);
        }
        let high_grams: u16 = high_wide as u16;
        Ok((low_grams, high_grams))
    }
}

} // verus!
