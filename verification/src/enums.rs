//! Moving owned values between the variants of an enum behind a mutable
//! reference, without cloning them.

use vstd::prelude::*;

verus! {

/// A value that either carries a count beside its name or only the name.
pub enum MyEnum {
    A { name: String, x: u8 },
    B { name: String },
}

/// When the count has reached zero, drops it: `A { name, x: 0 }` becomes
/// `B { name }`, keeping the owned name; every other value stays as it is.
pub fn a_to_b(e: &mut MyEnum)
    ensures
        match *old(e) {
            MyEnum::A { name, x } => if x == 0 {
                *final(e) == (MyEnum::B { name })
            } else {
                *final(e) == *old(e)
            },
            MyEnum::B { .. } => *final(e) == *old(e),
        },
{
    let mut taken = MyEnum::B { name: String::new() };
    core::mem::swap(e, &mut taken);
    *e = match taken {
        MyEnum::A { name, x } => {
            if x == 0 {
                MyEnum::B { name }
            } else {
                MyEnum::A { name, x }
            }
        },
        other => other,
    };
}

/// A four-way state whose named variants come in a swappable pair, as do the
/// bare ones.
pub enum MultiVariantEnum {
    A { name: String },
    B { name: String },
    C,
    D,
}

/// Swaps each variant with its partner, keeping the owned name where there
/// is one: `A` with `B`, `C` with `D`.
pub fn swizzle(e: &mut MultiVariantEnum)
    ensures
        match *old(e) {
            MultiVariantEnum::A { name } => *final(e) == (MultiVariantEnum::B { name }),
            MultiVariantEnum::B { name } => *final(e) == (MultiVariantEnum::A { name }),
            MultiVariantEnum::C => *final(e) == MultiVariantEnum::D,
            MultiVariantEnum::D => *final(e) == MultiVariantEnum::C,
        },
{
    let mut taken = MultiVariantEnum::C;
    core::mem::swap(e, &mut taken);
    *e = match taken {
        MultiVariantEnum::A { name } => MultiVariantEnum::B { name },
        MultiVariantEnum::B { name } => MultiVariantEnum::A { name },
        MultiVariantEnum::C => MultiVariantEnum::D,
        MultiVariantEnum::D => MultiVariantEnum::C,
    };
}

} // verus!
