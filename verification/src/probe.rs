//! The type-name probe: a human-readable description of a value's
//! compile-time type.
//!
//! Verified code here has no access to compiler reflection, so each type that
//! the probe covers supplies its own statically known label through the
//! [`TypeLabeled`] trait. The label is a pure function of the type alone,
//! which makes the probe deterministic by construction, and every label is
//! required to be non-empty.

use vstd::prelude::*;

verus! {

/// A type that carries a textual label naming it.
pub trait TypeLabeled {
    /// The label for this type, as a sequence of characters.
    spec fn label_spec() -> Seq<char>;

    /// The label for this type: non-empty text that names it.
    fn label() -> (r: &'static str)
        ensures
            r@ == Self::label_spec(),
            r@.len() > 0,
    ;
}

impl<'a> TypeLabeled for &'a str {
    open spec fn label_spec() -> Seq<char> {
        "&str"@
    }

    fn label() -> (r: &'static str) {
        proof {
            reveal_strlit("&str");
        }
        "&str"
    }
}

impl TypeLabeled for String {
    open spec fn label_spec() -> Seq<char> {
        "String"@
    }

    fn label() -> (r: &'static str) {
        proof {
            reveal_strlit("String");
        }
        "String"
    }
}

impl TypeLabeled for i32 {
    open spec fn label_spec() -> Seq<char> {
        "i32"@
    }

    fn label() -> (r: &'static str) {
        proof {
            reveal_strlit("i32");
        }
        "i32"
    }
}

/// The type-name probe: a description of the compile-time type of the value
/// behind the reference. The result is the type's own label, so it depends on
/// the type alone and is never empty.
#[allow(unused_variables)]
pub fn o_type<T: TypeLabeled>(t: &T) -> (r: String)
    ensures
        r@ == T::label_spec(),
        r@.len() > 0,
{
    let raw: &'static str = T::label();
    raw.to_owned()
}

/// The probe is deterministic: two probe results for values of the same type
/// are equal.
pub proof fn lemma_probe_deterministic<T: TypeLabeled>(r1: Seq<char>, r2: Seq<char>)
    requires
        r1 == T::label_spec(),
        r2 == T::label_spec(),
    ensures
        r1 == r2,
{
}

} // verus!
