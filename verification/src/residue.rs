//! Remainders modulo eight: as values, with their addition table, and as marker types,
//! with their addition on the level of types.

use vstd::prelude::*;

verus! {

/// A remainder of a division by eight.
#[derive(Clone, Copy, Debug, PartialEq, Eq, Structural)]
pub enum Residue {
    Zero,
    One,
    Two,
    Three,
    Four,
    Five,
    Six,
    Seven,
}

impl Residue {
    /// The remainder as a number, from 0 to 7.
    pub open spec fn value(self) -> nat {
        match self {
            Residue::Zero => 0,
            Residue::One => 1,
            Residue::Two => 2,
            Residue::Three => 3,
            Residue::Four => 4,
            Residue::Five => 5,
            Residue::Six => 6,
            Residue::Seven => 7,
        }
    }

    /// The remainder that the number `n` leaves.
    pub open spec fn of(n: nat) -> Residue {
        let m = n % 8;
        if m == 0 {
            Residue::Zero
        } else if m == 1 {
            Residue::One
        } else if m == 2 {
            Residue::Two
        } else if m == 3 {
            Residue::Three
        } else if m == 4 {
            Residue::Four
        } else if m == 5 {
            Residue::Five
        } else if m == 6 {
            Residue::Six
        } else {
            Residue::Seven
        }
    }

    /// The remainder as a number.
    pub fn index(self) -> (i: usize)
        ensures
            i == self.value(),
    {
        match self {
            Residue::Zero => 0,
            Residue::One => 1,
            Residue::Two => 2,
            Residue::Three => 3,
            Residue::Four => 4,
            Residue::Five => 5,
            Residue::Six => 6,
            Residue::Seven => 7,
        }
    }

    /// The remainder that `n` leaves when divided by eight.
    pub fn from_index(n: usize) -> (r: Residue)
        ensures
            r == Residue::of(n as nat),
            r.value() == n % 8,
    {
        let m: usize = n % 8;
        if m == 0 {
            Residue::Zero
        } else if m == 1 {
            Residue::One
        } else if m == 2 {
            Residue::Two
        } else if m == 3 {
            Residue::Three
        } else if m == 4 {
            Residue::Four
        } else if m == 5 {
            Residue::Five
        } else if m == 6 {
            Residue::Six
        } else {
            Residue::Seven
        }
    }

    /// The sum of two remainders, again as a remainder.
    pub fn plus(self, rhs: Residue) -> (sum: Residue)
        ensures
            sum.value() == (self.value() + rhs.value()) % 8,
            sum == Residue::of(self.value() + rhs.value()),
    {
        Residue::from_index(self.index() + rhs.index())
    }

    /// Whether the remainder is zero.
    pub fn is_zero(self) -> (zero: bool)
        ensures
            zero == (self.value() == 0),
    {
        match self {
            Residue::Zero => true,
            _ => false,
        }
    }

    /// The name of the marker type that stands for this remainder.
    pub fn marker_name(self) -> (name: &'static str)
        ensures
            name@ == Residue::spec_marker_name(self),
    {
        match self {
            Residue::Zero => "ZeroMod8",
            Residue::One => "OneMod8",
            Residue::Two => "TwoMod8",
            Residue::Three => "ThreeMod8",
            Residue::Four => "FourMod8",
            Residue::Five => "FiveMod8",
            Residue::Six => "SixMod8",
            Residue::Seven => "SevenMod8",
        }
    }

    /// The name of the marker type of a remainder, as a sequence of characters.
    pub open spec fn spec_marker_name(r: Residue) -> Seq<char> {
        match r {
            Residue::Zero => "ZeroMod8"@,
            Residue::One => "OneMod8"@,
            Residue::Two => "TwoMod8"@,
            Residue::Three => "ThreeMod8"@,
            Residue::Four => "FourMod8"@,
            Residue::Five => "FiveMod8"@,
            Residue::Six => "SixMod8"@,
            Residue::Seven => "SevenMod8"@,
        }
    }
}

/// The remainder of a number has that number's remainder as its value.
pub proof fn lemma_value_of_residue(n: nat)
    ensures
        Residue::of(n).value() == n % 8,
{
}

/// The remainder that a width of `value` binary digits leaves when divided by eight.
pub fn get_type_mod8(value: usize) -> (residue: Residue)
    ensures
        residue == Residue::of(value as nat),
        residue.value() == value % 8,
{
    Residue::from_index(value)
}

/// One line of the addition table of remainders: two remainders and their sum.
#[derive(Clone, Copy, Debug, PartialEq, Eq, Structural)]
pub struct Mod8Impl {
    /// The left operand.
    pub lhs: Residue,
    /// The right operand.
    pub rhs: Residue,
    /// The remainder of the sum of the two.
    pub output: Residue,
}

/// Whether `table` is the addition table of remainders: 64 lines, the line of the
/// operands `a` and `b` at index `8 * a + b`, each with the remainder of `a + b`.
pub open spec fn is_addition_table(table: Seq<Mod8Impl>) -> bool {
    &&& table.len() == 64
    &&& forall|a: int, b: int|
        0 <= a < 8 && 0 <= b < 8 ==> {
            &&& (#[trigger] table[8 * a + b]).lhs.value() == a
            &&& table[8 * a + b].rhs.value() == b
            &&& table[8 * a + b].output.value() == (a + b) % 8
        }
}

/// The addition table of remainders: a line for every pair of operands.
pub fn generate_mod8_impls() -> (table: Vec<Mod8Impl>)
    ensures
        is_addition_table(table@),
{
    let mut table: Vec<Mod8Impl> = Vec::new();
    let mut i: usize = 0;
    while i < 8
        invariant
            i <= 8,
            table.len() == 8 * i,
            forall|a: int, b: int|
                0 <= a < i && 0 <= b < 8 ==> {
                    &&& (#[trigger] table[8 * a + b]).lhs.value() == a
                    &&& table[8 * a + b].rhs.value() == b
                    &&& table[8 * a + b].output.value() == (a + b) % 8
                },
        decreases 8 - i,
    {
        let mut j: usize = 0;
        while j < 8
            invariant
                i < 8,
                j <= 8,
                table.len() == 8 * i + j,
                forall|a: int, b: int|
                    0 <= a < 8 && 0 <= b < 8 && 8 * a + b < 8 * i + j ==> {
                        &&& (#[trigger] table[8 * a + b]).lhs.value() == a
                        &&& table[8 * a + b].rhs.value() == b
                        &&& table[8 * a + b].output.value() == (a + b) % 8
                    },
            decreases 8 - j,
        {
            let line = Mod8Impl {
                lhs: Residue::from_index(i),
                rhs: Residue::from_index(j),
                output: Residue::from_index((i + j) % 8),
            };
            table.push(line);
            j += 1;
        }
        i += 1;
    }
    table
}

/// Looks the sum of two remainders up in the addition table.
pub fn lookup_sum(table: &Vec<Mod8Impl>, lhs: Residue, rhs: Residue) -> (sum: Residue)
    requires
        is_addition_table(table@),
    ensures
        sum.value() == (lhs.value() + rhs.value()) % 8,
{
    let line = &table[8 * lhs.index() + rhs.index()];
    assert(line == table@[8 * (lhs.value() as int) + (rhs.value() as int)]);
    line.output
}

/// A type that stands for one remainder of a division by eight.
pub trait ResidueClass {
    /// The remainder that the type stands for.
    spec fn residue() -> Residue;

    /// The remainder that the type stands for, as a value.
    fn class() -> (r: Residue)
        ensures
            r == Self::residue(),
    ;
}

/// The marker of the remainder 0.
pub struct ZeroMod8;

impl ResidueClass for ZeroMod8 {
    open spec fn residue() -> Residue {
        Residue::Zero
    }

    fn class() -> (r: Residue) {
        Residue::Zero
    }
}

/// The marker of the remainder 1.
pub struct OneMod8;

impl ResidueClass for OneMod8 {
    open spec fn residue() -> Residue {
        Residue::One
    }

    fn class() -> (r: Residue) {
        Residue::One
    }
}

/// The marker of the remainder 2.
pub struct TwoMod8;

impl ResidueClass for TwoMod8 {
    open spec fn residue() -> Residue {
        Residue::Two
    }

    fn class() -> (r: Residue) {
        Residue::Two
    }
}

/// The marker of the remainder 3.
pub struct ThreeMod8;

impl ResidueClass for ThreeMod8 {
    open spec fn residue() -> Residue {
        Residue::Three
    }

    fn class() -> (r: Residue) {
        Residue::Three
    }
}

/// The marker of the remainder 4.
pub struct FourMod8;

impl ResidueClass for FourMod8 {
    open spec fn residue() -> Residue {
        Residue::Four
    }

    fn class() -> (r: Residue) {
        Residue::Four
    }
}

/// The marker of the remainder 5.
pub struct FiveMod8;

impl ResidueClass for FiveMod8 {
    open spec fn residue() -> Residue {
        Residue::Five
    }

    fn class() -> (r: Residue) {
        Residue::Five
    }
}

/// The marker of the remainder 6.
pub struct SixMod8;

impl ResidueClass for SixMod8 {
    open spec fn residue() -> Residue {
        Residue::Six
    }

    fn class() -> (r: Residue) {
        Residue::Six
    }
}

/// The marker of the remainder 7.
pub struct SevenMod8;

impl ResidueClass for SevenMod8 {
    open spec fn residue() -> Residue {
        Residue::Seven
    }

    fn class() -> (r: Residue) {
        Residue::Seven
    }
}

/// A total width that is a whole number of bytes. Only the marker of the remainder 0
/// has this trait.
pub trait TotalSizeIsMultipleOfEightBits: ResidueClass {
    /// The remainder of such a width is zero.
    proof fn lemma_is_zero()
        ensures
            Self::residue() == Residue::Zero,
    ;
}

impl TotalSizeIsMultipleOfEightBits for ZeroMod8 {
    proof fn lemma_is_zero() {
    }
}

/// Addition of remainders on the level of types: `Output` stands for the sum of the
/// remainders of `Self` and `Rhs`.
pub trait CAddMod8<Rhs: ResidueClass>: ResidueClass {
    type Output: ResidueClass;
}

/// The marker of the sum of the remainders of `Lhs` and `Rhs`.
pub type AddMod8<Lhs, Rhs> = <Lhs as CAddMod8<Rhs>>::Output;

/// An addition of markers that is proved to add the remainders.
pub trait SumLaw<Rhs: ResidueClass>: CAddMod8<Rhs> {
    /// `Output` is the remainder of the sum.
    proof fn lemma_sum()
        ensures
            <Self as CAddMod8<Rhs>>::Output::residue().value() == (Self::residue().value()
                + Rhs::residue().value()) % 8,
    ;
}

impl CAddMod8<ZeroMod8> for ZeroMod8 {
    type Output = ZeroMod8;
}

impl SumLaw<ZeroMod8> for ZeroMod8 {
    proof fn lemma_sum() {
    }
}

impl CAddMod8<OneMod8> for ZeroMod8 {
    type Output = OneMod8;
}

impl SumLaw<OneMod8> for ZeroMod8 {
    proof fn lemma_sum() {
    }
}

impl CAddMod8<TwoMod8> for ZeroMod8 {
    type Output = TwoMod8;
}

impl SumLaw<TwoMod8> for ZeroMod8 {
    proof fn lemma_sum() {
    }
}

impl CAddMod8<ThreeMod8> for ZeroMod8 {
    type Output = ThreeMod8;
}

impl SumLaw<ThreeMod8> for ZeroMod8 {
    proof fn lemma_sum() {
    }
}

impl CAddMod8<FourMod8> for ZeroMod8 {
    type Output = FourMod8;
}

impl SumLaw<FourMod8> for ZeroMod8 {
    proof fn lemma_sum() {
    }
}

impl CAddMod8<FiveMod8> for ZeroMod8 {
    type Output = FiveMod8;
}

impl SumLaw<FiveMod8> for ZeroMod8 {
    proof fn lemma_sum() {
    }
}

impl CAddMod8<SixMod8> for ZeroMod8 {
    type Output = SixMod8;
}

impl SumLaw<SixMod8> for ZeroMod8 {
    proof fn lemma_sum() {
    }
}

impl CAddMod8<SevenMod8> for ZeroMod8 {
    type Output = SevenMod8;
}

impl SumLaw<SevenMod8> for ZeroMod8 {
    proof fn lemma_sum() {
    }
}

impl CAddMod8<ZeroMod8> for OneMod8 {
    type Output = OneMod8;
}

impl SumLaw<ZeroMod8> for OneMod8 {
    proof fn lemma_sum() {
    }
}

impl CAddMod8<OneMod8> for OneMod8 {
    type Output = TwoMod8;
}

impl SumLaw<OneMod8> for OneMod8 {
    proof fn lemma_sum() {
    }
}

impl CAddMod8<TwoMod8> for OneMod8 {
    type Output = ThreeMod8;
}

impl SumLaw<TwoMod8> for OneMod8 {
    proof fn lemma_sum() {
    }
}

impl CAddMod8<ThreeMod8> for OneMod8 {
    type Output = FourMod8;
}

impl SumLaw<ThreeMod8> for OneMod8 {
    proof fn lemma_sum() {
    }
}

impl CAddMod8<FourMod8> for OneMod8 {
    type Output = FiveMod8;
}

impl SumLaw<FourMod8> for OneMod8 {
    proof fn lemma_sum() {
    }
}

impl CAddMod8<FiveMod8> for OneMod8 {
    type Output = SixMod8;
}

impl SumLaw<FiveMod8> for OneMod8 {
    proof fn lemma_sum() {
    }
}

impl CAddMod8<SixMod8> for OneMod8 {
    type Output = SevenMod8;
}

impl SumLaw<SixMod8> for OneMod8 {
    proof fn lemma_sum() {
    }
}

impl CAddMod8<SevenMod8> for OneMod8 {
    type Output = ZeroMod8;
}

impl SumLaw<SevenMod8> for OneMod8 {
    proof fn lemma_sum() {
    }
}

impl CAddMod8<ZeroMod8> for TwoMod8 {
    type Output = TwoMod8;
}

impl SumLaw<ZeroMod8> for TwoMod8 {
    proof fn lemma_sum() {
    }
}

impl CAddMod8<OneMod8> for TwoMod8 {
    type Output = ThreeMod8;
}

impl SumLaw<OneMod8> for TwoMod8 {
    proof fn lemma_sum() {
    }
}

impl CAddMod8<TwoMod8> for TwoMod8 {
    type Output = FourMod8;
}

impl SumLaw<TwoMod8> for TwoMod8 {
    proof fn lemma_sum() {
    }
}

impl CAddMod8<ThreeMod8> for TwoMod8 {
    type Output = FiveMod8;
}

impl SumLaw<ThreeMod8> for TwoMod8 {
    proof fn lemma_sum() {
    }
}

impl CAddMod8<FourMod8> for TwoMod8 {
    type Output = SixMod8;
}

impl SumLaw<FourMod8> for TwoMod8 {
    proof fn lemma_sum() {
    }
}

impl CAddMod8<FiveMod8> for TwoMod8 {
    type Output = SevenMod8;
}

impl SumLaw<FiveMod8> for TwoMod8 {
    proof fn lemma_sum() {
    }
}

impl CAddMod8<SixMod8> for TwoMod8 {
    type Output = ZeroMod8;
}

impl SumLaw<SixMod8> for TwoMod8 {
    proof fn lemma_sum() {
    }
}

impl CAddMod8<SevenMod8> for TwoMod8 {
    type Output = OneMod8;
}

impl SumLaw<SevenMod8> for TwoMod8 {
    proof fn lemma_sum() {
    }
}

impl CAddMod8<ZeroMod8> for ThreeMod8 {
    type Output = ThreeMod8;
}

impl SumLaw<ZeroMod8> for ThreeMod8 {
    proof fn lemma_sum() {
    }
}

impl CAddMod8<OneMod8> for ThreeMod8 {
    type Output = FourMod8;
}

impl SumLaw<OneMod8> for ThreeMod8 {
    proof fn lemma_sum() {
    }
}

impl CAddMod8<TwoMod8> for ThreeMod8 {
    type Output = FiveMod8;
}

impl SumLaw<TwoMod8> for ThreeMod8 {
    proof fn lemma_sum() {
    }
}

impl CAddMod8<ThreeMod8> for ThreeMod8 {
    type Output = SixMod8;
}

impl SumLaw<ThreeMod8> for ThreeMod8 {
    proof fn lemma_sum() {
    }
}

impl CAddMod8<FourMod8> for ThreeMod8 {
    type Output = SevenMod8;
}

impl SumLaw<FourMod8> for ThreeMod8 {
    proof fn lemma_sum() {
    }
}

impl CAddMod8<FiveMod8> for ThreeMod8 {
    type Output = ZeroMod8;
}

impl SumLaw<FiveMod8> for ThreeMod8 {
    proof fn lemma_sum() {
    }
}

impl CAddMod8<SixMod8> for ThreeMod8 {
    type Output = OneMod8;
}

impl SumLaw<SixMod8> for ThreeMod8 {
    proof fn lemma_sum() {
    }
}

impl CAddMod8<SevenMod8> for ThreeMod8 {
    type Output = TwoMod8;
}

impl SumLaw<SevenMod8> for ThreeMod8 {
    proof fn lemma_sum() {
    }
}

impl CAddMod8<ZeroMod8> for FourMod8 {
    type Output = FourMod8;
}

impl SumLaw<ZeroMod8> for FourMod8 {
    proof fn lemma_sum() {
    }
}

impl CAddMod8<OneMod8> for FourMod8 {
    type Output = FiveMod8;
}

impl SumLaw<OneMod8> for FourMod8 {
    proof fn lemma_sum() {
    }
}

impl CAddMod8<TwoMod8> for FourMod8 {
    type Output = SixMod8;
}

impl SumLaw<TwoMod8> for FourMod8 {
    proof fn lemma_sum() {
    }
}

impl CAddMod8<ThreeMod8> for FourMod8 {
    type Output = SevenMod8;
}

impl SumLaw<ThreeMod8> for FourMod8 {
    proof fn lemma_sum() {
    }
}

impl CAddMod8<FourMod8> for FourMod8 {
    type Output = ZeroMod8;
}

impl SumLaw<FourMod8> for FourMod8 {
    proof fn lemma_sum() {
    }
}

impl CAddMod8<FiveMod8> for FourMod8 {
    type Output = OneMod8;
}

impl SumLaw<FiveMod8> for FourMod8 {
    proof fn lemma_sum() {
    }
}

impl CAddMod8<SixMod8> for FourMod8 {
    type Output = TwoMod8;
}

impl SumLaw<SixMod8> for FourMod8 {
    proof fn lemma_sum() {
    }
}

impl CAddMod8<SevenMod8> for FourMod8 {
    type Output = ThreeMod8;
}

impl SumLaw<SevenMod8> for FourMod8 {
    proof fn lemma_sum() {
    }
}

impl CAddMod8<ZeroMod8> for FiveMod8 {
    type Output = FiveMod8;
}

impl SumLaw<ZeroMod8> for FiveMod8 {
    proof fn lemma_sum() {
    }
}

impl CAddMod8<OneMod8> for FiveMod8 {
    type Output = SixMod8;
}

impl SumLaw<OneMod8> for FiveMod8 {
    proof fn lemma_sum() {
    }
}

impl CAddMod8<TwoMod8> for FiveMod8 {
    type Output = SevenMod8;
}

impl SumLaw<TwoMod8> for FiveMod8 {
    proof fn lemma_sum() {
    }
}

impl CAddMod8<ThreeMod8> for FiveMod8 {
    type Output = ZeroMod8;
}

impl SumLaw<ThreeMod8> for FiveMod8 {
    proof fn lemma_sum() {
    }
}

impl CAddMod8<FourMod8> for FiveMod8 {
    type Output = OneMod8;
}

impl SumLaw<FourMod8> for FiveMod8 {
    proof fn lemma_sum() {
    }
}

impl CAddMod8<FiveMod8> for FiveMod8 {
    type Output = TwoMod8;
}

impl SumLaw<FiveMod8> for FiveMod8 {
    proof fn lemma_sum() {
    }
}

impl CAddMod8<SixMod8> for FiveMod8 {
    type Output = ThreeMod8;
}

impl SumLaw<SixMod8> for FiveMod8 {
    proof fn lemma_sum() {
    }
}

impl CAddMod8<SevenMod8> for FiveMod8 {
    type Output = FourMod8;
}

impl SumLaw<SevenMod8> for FiveMod8 {
    proof fn lemma_sum() {
    }
}

impl CAddMod8<ZeroMod8> for SixMod8 {
    type Output = SixMod8;
}

impl SumLaw<ZeroMod8> for SixMod8 {
    proof fn lemma_sum() {
    }
}

impl CAddMod8<OneMod8> for SixMod8 {
    type Output = SevenMod8;
}

impl SumLaw<OneMod8> for SixMod8 {
    proof fn lemma_sum() {
    }
}

impl CAddMod8<TwoMod8> for SixMod8 {
    type Output = ZeroMod8;
}

impl SumLaw<TwoMod8> for SixMod8 {
    proof fn lemma_sum() {
    }
}

impl CAddMod8<ThreeMod8> for SixMod8 {
    type Output = OneMod8;
}

impl SumLaw<ThreeMod8> for SixMod8 {
    proof fn lemma_sum() {
    }
}

impl CAddMod8<FourMod8> for SixMod8 {
    type Output = TwoMod8;
}

impl SumLaw<FourMod8> for SixMod8 {
    proof fn lemma_sum() {
    }
}

impl CAddMod8<FiveMod8> for SixMod8 {
    type Output = ThreeMod8;
}

impl SumLaw<FiveMod8> for SixMod8 {
    proof fn lemma_sum() {
    }
}

impl CAddMod8<SixMod8> for SixMod8 {
    type Output = FourMod8;
}

impl SumLaw<SixMod8> for SixMod8 {
    proof fn lemma_sum() {
    }
}

impl CAddMod8<SevenMod8> for SixMod8 {
    type Output = FiveMod8;
}

impl SumLaw<SevenMod8> for SixMod8 {
    proof fn lemma_sum() {
    }
}

impl CAddMod8<ZeroMod8> for SevenMod8 {
    type Output = SevenMod8;
}

impl SumLaw<ZeroMod8> for SevenMod8 {
    proof fn lemma_sum() {
    }
}

impl CAddMod8<OneMod8> for SevenMod8 {
    type Output = ZeroMod8;
}

impl SumLaw<OneMod8> for SevenMod8 {
    proof fn lemma_sum() {
    }
}

impl CAddMod8<TwoMod8> for SevenMod8 {
    type Output = OneMod8;
}

impl SumLaw<TwoMod8> for SevenMod8 {
    proof fn lemma_sum() {
    }
}

impl CAddMod8<ThreeMod8> for SevenMod8 {
    type Output = TwoMod8;
}

impl SumLaw<ThreeMod8> for SevenMod8 {
    proof fn lemma_sum() {
    }
}

impl CAddMod8<FourMod8> for SevenMod8 {
    type Output = ThreeMod8;
}

impl SumLaw<FourMod8> for SevenMod8 {
    proof fn lemma_sum() {
    }
}

impl CAddMod8<FiveMod8> for SevenMod8 {
    type Output = FourMod8;
}

impl SumLaw<FiveMod8> for SevenMod8 {
    proof fn lemma_sum() {
    }
}

impl CAddMod8<SixMod8> for SevenMod8 {
    type Output = FiveMod8;
}

impl SumLaw<SixMod8> for SevenMod8 {
    proof fn lemma_sum() {
    }
}

impl CAddMod8<SevenMod8> for SevenMod8 {
    type Output = SixMod8;
}

impl SumLaw<SevenMod8> for SevenMod8 {
    proof fn lemma_sum() {
    }
}

} // verus!
