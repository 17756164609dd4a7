//! The entry routine's computation: the fixed bindings, the derived values,
//! and the one output line.

use vstd::prelude::*;

use crate::decimal::decimal_string;
use crate::decimal::dec_rep;
use crate::decimal::int_rep;
use crate::probe::TypeLabeled;
use crate::probe::o_type;

verus! {

/// The output line for an age and a name: the age in decimal, one space, the
/// name, and a trailing newline.
pub open spec fn line_rep(age: int, name: Seq<char>) -> Seq<char> {
    int_rep(age) + seq![' '] + name + seq!['\n']
}

/// The age plus one.
pub fn age_plus_one(age: i32) -> (r: i32)
    requires
        age < i32::MAX,
    ensures
        r == age + 1,
{
    age + 1
}

/// Renders the output line for an age and a name.
pub fn render_line(age: i32, name: &str) -> (r: String)
    ensures
        r@ == line_rep(age as int, name@),
{
    let mut s = decimal_string(age);
    proof {
        reveal_strlit(" ");
        reveal_strlit("\n");
    }
    s.append(" ");
    s.append(name);
    s.append("\n");
    proof {
        assert(s@ =~= line_rep(age as int, name@));
    }
    s
}

/// The values that one run of the entry routine binds and derives.
pub struct Run {
    /// The name binding.
    pub name: &'static str,
    /// The age binding.
    pub age: i32,
    /// The derived value: the age plus one.
    pub age_plus_one: i32,
    /// The derived value: the probe's description of the name's type.
    pub type_of_name: String,
    /// The rendered output line.
    pub line: String,
}

/// Performs the entry routine's computation: binds the fixed name and age,
/// derives the age plus one and the name's type description, and renders the
/// output line.
pub fn run() -> (r: Run)
    ensures
        r.name@ == "Kevin"@,
        r.age == 30,
        r.age_plus_one == 31,
        r.type_of_name@ == <&str as TypeLabeled>::label_spec(),
        r.type_of_name@.len() > 0,
        r.line@ == line_rep(30, "Kevin"@),
        r.line@ == "30 Kevin\n"@,
{
    let name: &'static str = "Kevin";
    let age: i32 = 30;
    let age1: i32 = age_plus_one(age);
    let type_of_name = o_type(&name);
    let line = render_line(age, name);
    proof {
        reveal_strlit("Kevin");
        reveal_strlit("30 Kevin\n");
        assert(dec_rep(3) =~= seq!['3']);
        assert(dec_rep(30) =~= seq!['3', '0']);
        assert(line@ =~= "30 Kevin\n"@);
    }
    Run { name, age, age_plus_one: age1, type_of_name, line }
}

} // verus!
