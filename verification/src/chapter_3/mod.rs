use crate::text::decimal;
use vstd::prelude::*;

pub mod compound_types;
pub mod constants;
pub mod loops;
pub mod primitive_types;
pub mod scope;
pub mod shadowing;

verus! {

/// What the parts of the chapter come to, in their order.
pub struct Parts {
    pub compound_types: ((&'static str, &'static str), String, (String, String, String, String)),
    pub primitive_types: (i32, u8, i32),
    pub scope: (String, String),
    pub constants: u8,
    pub shadowing: (i32, i32),
    pub loops: (u8, Vec<u8>, u8),
}

/// Runs the parts of the chapter in their order and gathers what they come to.
pub fn run() -> (parts: Parts)
    ensures
        parts.compound_types.0.0@ == "Orange"@,
        parts.compound_types.0.1@ == "Apple"@,
        parts.compound_types.1@ == compound_types::encounter_words(
            ("Alice"@, false),
            ("Zorb"@, true),
        ),
        parts.compound_types.2.0@ == "Hammer"@ + " DOWN!"@,
        parts.compound_types.2.1@ == "Reinhardt"@,
        parts.compound_types.2.2@ == "ESM"@ + decimal(24),
        parts.compound_types.2.3@ == ("ESM"@ + decimal(24)).subrange(0, 2),
        parts.primitive_types == (-42i32, 64u8, 22i32),
        parts.scope.0@ == scope::card_text(
            "OUTER SCOPE"@,
            "\n  --------------------"@,
            "Happy birthday"@,
            "INNER SCOPE"@,
        ),
        parts.scope.1@ == scope::card_text(
            "INNER SCOPE"@,
            "\n  --------------------"@,
            "Thank you"@,
            "OUTER SCOPE"@,
        ),
        parts.constants == 3,
        parts.shadowing == (74i32, 25i32),
        parts.loops.0 == 25,
        parts.loops.1@ == seq![10u8, 20u8, 30u8, 40u8, 50u8],
        parts.loops.2 == 255,
{
    let compound_types = compound_types::run();
    let primitive_types = primitive_types::run();
    let scope = scope::run();
    let constants = constants::run();
    let shadowing = shadowing::run();
    let loops = loops::run();
    Parts { compound_types, primitive_types, scope, constants, shadowing, loops }
}

} // verus!
