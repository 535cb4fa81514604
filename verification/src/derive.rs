//! Enums as specifiers: the width that an enum takes, and the rules on the discriminants
//! of its variants.

use crate::item::{
    discriminant_of, get_discriminant, Data, Discriminant, DiscriminantExpr, Item, Variant,
};
use crate::registry::{layout_of, SpecifierInfo, ValueType};
use crate::text::{decimal, push_decimal};
use std::collections::HashSet;
use vstd::arithmetic::power2::{lemma2_to64, lemma_pow2_strictly_increases, pow2};
use vstd::prelude::*;
use vstd::string::StringExecFns;

verus! {

/// Whether `n` is a power of two: 1, 2, 4, 8 and so on.
pub open spec fn power_of_two(n: nat) -> bool {
    exists|k: nat| pow2(k) == n
}

/// `usize::is_power_of_two` of the standard library. Its documentation says that it
/// returns true if and only if the number is two to the power of some natural number.
pub assume_specification[ usize::is_power_of_two ](n: usize) -> (r: bool)
    ensures
        r == power_of_two(n as nat),
;

/// `usize::ilog2` of the standard library. Its documentation says that it returns the
/// logarithm of the number to the base 2, rounded down, and that it panics on zero.
pub assume_specification[ usize::ilog2 ](n: usize) -> (r: u32)
    requires
        n > 0,
    ensures
        pow2(r as nat) <= n < pow2((r + 1) as nat),
;

/// Why an item cannot be made a specifier.
#[derive(Clone, Copy, Debug, PartialEq, Eq, Structural)]
pub enum DeriveError {
    /// The item is no enum.
    NotAnEnum,
    /// The enum has no variant.
    Empty,
    /// The number of variants is no power of two.
    NotPowerOfTwo,
    /// The variant at index `variant` gives itself a discriminant below zero or above
    /// `max`, the number of variants less one.
    OutOfRange { variant: usize, max: usize },
    /// The variant at index `variant` gives itself a discriminant that an earlier
    /// variant gave itself.
    Repeated { variant: usize },
}

impl DeriveError {
    /// The text of the error, as a sequence of characters.
    pub open spec fn spec_message(self) -> Seq<char> {
        match self {
            DeriveError::NotAnEnum => "BitfieldSpecifier must be used on an enum"@,
            DeriveError::Empty => "Empty enums are not allowed"@,
            DeriveError::NotPowerOfTwo => "Number of variants must be power of two"@,
            DeriveError::OutOfRange { variant, max } => "Valid range [0-"@ + decimal(max as nat)
                + "]"@,
            DeriveError::Repeated { variant } => "Repeated discriminant"@,
        }
    }

    /// The text of the error.
    pub fn message(&self) -> (text: String)
        ensures
            text@ == self.spec_message(),
    {
        match self {
            DeriveError::NotAnEnum => String::from_str(
                "BitfieldSpecifier must be used on an enum",
            ),
            DeriveError::Empty => String::from_str("Empty enums are not allowed"),
            DeriveError::NotPowerOfTwo => String::from_str(
                "Number of variants must be power of two",
            ),
            DeriveError::OutOfRange { variant, max } => {
                let mut text = String::from_str("Valid range [0-");
                push_decimal(&mut text, *max);
                text.append("]");
                text
            },
            DeriveError::Repeated { variant } => String::from_str("Repeated discriminant"),
        }
    }
}

/// The discriminant that `variant` gives itself by an integer literal, if it does.
pub open spec fn literal_tag(variant: Variant) -> Option<int> {
    match discriminant_of(variant) {
        Some(Discriminant::Literal(value)) => Some(value as int),
        _ => None,
    }
}

/// Whether an earlier variant than the one at `index` gives itself the discriminant
/// `tag` by an integer literal.
pub open spec fn tag_taken(variants: Seq<Variant>, index: int, tag: int) -> bool {
    exists|j: int| 0 <= j < index && literal_tag(#[trigger] variants[j]) == Some(tag)
}

/// What is wrong with the discriminant of the variant at `index`, if anything is. Only a
/// discriminant given by an integer literal is held to a rule: it lies between zero and
/// the number of variants less one, and no earlier variant has given itself the same.
pub open spec fn variant_error(variants: Seq<Variant>, index: int) -> Option<DeriveError> {
    match literal_tag(variants[index]) {
        None => None,
        Some(tag) => if tag < 0 || tag >= variants.len() {
            Some(
                DeriveError::OutOfRange {
                    variant: index as usize,
                    max: (variants.len() - 1) as usize,
                },
            )
        } else if tag_taken(variants, index, tag) {
            Some(DeriveError::Repeated { variant: index as usize })
        } else {
            None
        },
    }
}

/// Whether the discriminants of the first `count` variants are in order.
pub open spec fn discriminants_valid(variants: Seq<Variant>, count: int) -> bool {
    forall|i: int| 0 <= i < count ==> variant_error(variants, i) is None
}

/// Holds the discriminants that the variants give themselves by integer literals to the
/// rules, in the order of the variants. The error is that of the first variant that
/// breaks one.
pub fn validate_discriminants(variants: &Vec<Variant>) -> (r: Result<(), DeriveError>)
    ensures
        r is Ok <==> discriminants_valid(variants@, variants.len() as int),
        r matches Err(e) ==> exists|i: int|
            0 <= i < variants.len() && discriminants_valid(variants@, i) && variant_error(
                variants@,
                i,
            ) == Some(e),
{
    broadcast use vstd::std_specs::hash::group_hash_axioms;

    let n_variants = variants.len();
    let mut discriminants: HashSet<usize> = HashSet::with_capacity(n_variants);
    let mut index: usize = 0;
    while index < n_variants
        invariant
            index <= n_variants,
            n_variants == variants.len(),
            discriminants_valid(variants@, index as int),
            forall|tag: usize|
                discriminants@.contains(tag) <==> tag_taken(variants@, index as int, tag as int),
        decreases n_variants - index,
    {
        let ghost before = discriminants@;
        // Only a discriminant that an integer literal gives is held to the rules.
        if let Some(Discriminant::Literal(discriminant)) = get_discriminant(&variants[index]) {
            let not_in_range = DeriveError::OutOfRange { variant: index, max: n_variants - 1 };
            if discriminant < 0 {
                assert(variant_error(variants@, index as int) == Some(not_in_range));
                return Err(not_in_range);
            }
            let discriminant = discriminant as usize;
            if discriminant >= n_variants {
                assert(variant_error(variants@, index as int) == Some(not_in_range));
                return Err(not_in_range);
            }
            // A discriminant that comes twice leaves another one out.
            if !discriminants.insert(discriminant) {
                assert(variant_error(variants@, index as int) == Some(
                    DeriveError::Repeated { variant: index },
                ));
                return Err(DeriveError::Repeated { variant: index });
            }
        }
        proof {
            let i = index as int;
            assert forall|tag: usize|
                discriminants@.contains(tag) <==> tag_taken(variants@, i + 1, tag as int) by {
                if tag_taken(variants@, i + 1, tag as int) {
                    let j = choose|j: int|
                        0 <= j < i + 1 && literal_tag(#[trigger] variants@[j]) == Some(tag as int);
                    if j < i {
                        assert(tag_taken(variants@, i, tag as int));
                    }
                }
                if discriminants@.contains(tag) {
                    if before.contains(tag) {
                        let j = choose|j: int|
                            0 <= j < i && literal_tag(#[trigger] variants@[j]) == Some(
                                tag as int,
                            );
                        assert(0 <= j < i + 1);
                    } else {
                        assert(literal_tag(variants@[i]) == Some(tag as int));
                    }
                }
            }
        }
        index += 1;
    }
    Ok(())
}

/// The width of the specifier of an enum with `count` variants: the number `bits` with
/// `2^bits == count`.
pub open spec fn enum_bits(count: nat, bits: nat) -> bool {
    pow2(bits) == count
}

/// Two to the power of `a` is two to the power of `b` only where `a` is `b`.
pub proof fn lemma_pow2_injective(a: nat, b: nat)
    requires
        pow2(a) == pow2(b),
    ensures
        a == b,
{
    if a < b {
        lemma_pow2_strictly_increases(a, b);
    } else if b < a {
        lemma_pow2_strictly_increases(b, a);
    }
}

/// The specifier that an enum gives: its width is the logarithm of the number of its
/// variants, which has to be a power of two.
///
/// The checks come in this order: the item is an enum; it has a variant; the number of
/// its variants is a power of two; the discriminants that its variants give themselves
/// are in order (see `validate_discriminants`).
pub fn derive_bitfield_specifier(item: &Item) -> (r: Result<SpecifierInfo, DeriveError>)
    ensures
        !(item.data is Enum) ==> r == Err::<SpecifierInfo, DeriveError>(DeriveError::NotAnEnum),
        item.data matches Data::Enum(variants) ==> {
            let count = variants.len();
            &&& count == 0 ==> r == Err::<SpecifierInfo, DeriveError>(DeriveError::Empty)
            &&& count > 0 && !power_of_two(count as nat) ==> r == Err::<
                SpecifierInfo,
                DeriveError,
            >(DeriveError::NotPowerOfTwo)
            &&& count > 0 && power_of_two(count as nat) ==> {
                &&& r is Ok <==> discriminants_valid(variants@, count as int)
                &&& r matches Err(e) ==> exists|i: int|
                    0 <= i < count && discriminants_valid(variants@, i) && variant_error(
                        variants@,
                        i,
                    ) == Some(e)
                &&& r matches Ok(info) ==> {
                    &&& info.name == item.ident
                    &&& info.type_repr == ValueType::Enum
                    &&& enum_bits(count as nat, info.bits as nat)
                    &&& info.wf()
                }
            }
        },
{
    let variants = match &item.data {
        Data::Enum(variants) => variants,
        _ => {
            return Err(DeriveError::NotAnEnum);
        },
    };
    let n_variants = variants.len();
    if n_variants == 0 {
        return Err(DeriveError::Empty);
    }
    if !n_variants.is_power_of_two() {
        return Err(DeriveError::NotPowerOfTwo);
    }
    let bits = n_variants.ilog2() as usize;
    proof {
        let k = choose|k: nat| pow2(k) == n_variants as nat;
        if k < bits {
            lemma_pow2_strictly_increases(k, bits as nat);
        } else if k > bits {
            if k > bits + 1 {
                lemma_pow2_strictly_increases((bits + 1) as nat, k);
            }
        }
        assert(k == bits);
        lemma2_to64();
        if bits > 64 {
            lemma_pow2_strictly_increases(64, bits as nat);
        }
    }
    let (int_repr, mod8) = layout_of(bits);
    match validate_discriminants(variants) {
        Err(e) => Err(e),
        Ok(()) => Ok(
            SpecifierInfo {
                name: item.ident.clone(),
                bits,
                type_repr: ValueType::Enum,
                int_repr,
                mod8,
            },
        ),
    }
}

/// The discriminant that the variant at `index` has by the rule of the language: the
/// value that an integer literal gives it, or else one more than the discriminant of the
/// variant before it, or zero for the first variant. There is none where the rule needs
/// a value that the variants do not show (that of a constant or of another expression),
/// or one that no `isize` holds.
pub open spec fn tag_of(variants: Seq<Variant>, index: int) -> Option<int>
    decreases index,
{
    if index < 0 || index >= variants.len() {
        None
    } else {
        match variants[index].discriminant {
            Some(DiscriminantExpr::IntLiteral(value)) => Some(value as int),
            Some(_) => None,
            None => if index == 0 {
                Some(0)
            } else {
                match tag_of(variants, index - 1) {
                    Some(tag) => if tag < isize::MAX {
                        Some(tag + 1)
                    } else {
                        None
                    },
                    None => None,
                }
            },
        }
    }
}

/// The discriminants of the variants by the rule of the language, in the order of the
/// variants; `None` where one of them is not known.
pub fn variant_tags(variants: &Vec<Variant>) -> (tags: Option<Vec<isize>>)
    ensures
        match tags {
            Some(tags) => tags.len() == variants.len() && forall|i: int|
                0 <= i < variants.len() ==> tag_of(variants@, i) == Some(#[trigger] tags[i] as int),
            None => exists|i: int| 0 <= i < variants.len() && tag_of(variants@, i) is None,
        },
{
    let mut tags: Vec<isize> = Vec::new();
    let mut index: usize = 0;
    while index < variants.len()
        invariant
            index <= variants.len(),
            tags.len() == index,
            forall|i: int|
                0 <= i < index ==> tag_of(variants@, i) == Some(#[trigger] tags[i] as int),
        decreases variants.len() - index,
    {
        let tag: isize = match &variants[index].discriminant {
            Some(DiscriminantExpr::IntLiteral(value)) => *value,
            Some(_) => {
                assert(tag_of(variants@, index as int) is None);
                return None;
            },
            None => {
                if index == 0 {
                    0
                } else {
                    let before = tags[index - 1];
                    assert(tag_of(variants@, index - 1) == Some(before as int));
                    if before == isize::MAX {
                        assert(tag_of(variants@, index as int) is None);
                        return None;
                    }
                    before + 1
                }
            },
        };
        tags.push(tag);
        index += 1;
    }
    Some(tags)
}

/// The first variant whose discriminant is the raw number `raw`: the value that `raw`
/// stands for. `tags` holds the discriminants of the variants in their order.
pub fn to_variant(tags: &Vec<isize>, raw: u64) -> (variant: Option<usize>)
    ensures
        match variant {
            Some(index) => index < tags.len() && tags[index as int] == raw && forall|j: int|
                0 <= j < index ==> tags[j] != raw,
            None => forall|j: int| 0 <= j < tags.len() ==> tags[j] != raw,
        },
{
    let mut index: usize = 0;
    while index < tags.len()
        invariant
            index <= tags.len(),
            forall|j: int| 0 <= j < index ==> tags[j] != raw,
        decreases tags.len() - index,
    {
        let tag = tags[index];
        if tag >= 0 && tag as u64 == raw {
            return Some(index);
        }
        index += 1;
    }
    None
}

} // verus!
