//! Names that the rewriter synthesizes: `field_<index>` for positional
//! fields, `new_unsafe` and `new_<variant>_unsafe` for constructors.

use vstd::prelude::*;
use vstd::string::StringExecFns;

verus! {

/// The character that stands for the decimal digit `d`.
pub open spec fn digit_char(d: nat) -> char
    recommends
        d < 10,
{
    seq!['0', '1', '2', '3', '4', '5', '6', '7', '8', '9'][d as int]
}

/// The decimal numeral of `n`, most significant digit first, without
/// leading zeros.
pub open spec fn decimal(n: nat) -> Seq<char>
    decreases n,
{
    if n < 10 {
        seq![digit_char(n)]
    } else {
        decimal(n / 10).push(digit_char(n % 10))
    }
}

/// The name given to the positional field at `index`.
pub open spec fn positional_name_spec(index: nat) -> Seq<char> {
    "field_"@ + decimal(index)
}

/// What `str::to_lowercase` returns for a string with the characters `s`.
pub uninterp spec fn lowercase(s: Seq<char>) -> Seq<char>;

/// The constructor name built around an already lower-cased variant name.
pub open spec fn constructor_name_around(lowered: Seq<char>) -> Seq<char> {
    "new_"@ + lowered + "_unsafe"@
}

/// The name of the constructor of the enum variant called `variant`.
pub open spec fn variant_constructor_name_spec(variant: Seq<char>) -> Seq<char> {
    constructor_name_around(lowercase(variant))
}

/// The name of the constructor of a data structure.
pub open spec fn struct_constructor_name_spec() -> Seq<char> {
    "new_unsafe"@
}

fn digit_text(d: usize) -> (r: &'static str)
    requires
        d < 10,
    ensures
        r@ == seq![digit_char(d as nat)],
{
    proof {
        reveal_strlit("0");
        reveal_strlit("1");
        reveal_strlit("2");
        reveal_strlit("3");
        reveal_strlit("4");
        reveal_strlit("5");
        reveal_strlit("6");
        reveal_strlit("7");
        reveal_strlit("8");
        reveal_strlit("9");
    }
    let r = if d == 0 {
        "0"
    } else if d == 1 {
        "1"
    } else if d == 2 {
        "2"
    } else if d == 3 {
        "3"
    } else if d == 4 {
        "4"
    } else if d == 5 {
        "5"
    } else if d == 6 {
        "6"
    } else if d == 7 {
        "7"
    } else if d == 8 {
        "8"
    } else {
        "9"
    };
    r
}

/// Writes `n` as a decimal numeral.
pub fn decimal_text(n: usize) -> (r: String)
    ensures
        r@ == decimal(n as nat),
    decreases n,
{
    if n < 10 {
        digit_text(n).to_owned()
    } else {
        let mut r = decimal_text(n / 10);
        r.append(digit_text(n % 10));
        r
    }
}

/// The name of the parameter that stands for the positional field at
/// `index`: `field_0`, `field_1`, and so on.
pub fn positional_name(index: usize) -> (r: String)
    ensures
        r@ == positional_name_spec(index as nat),
{
    let mut r = "field_".to_owned();
    let digits = decimal_text(index);
    r.append(digits.as_str());
    r
}

/// Calls `str::to_lowercase` of the standard library, which maps each
/// character to its Unicode lower-case equivalent. The contract only gives
/// the result its name, [`lowercase`]: nothing is claimed of what it holds.
#[verifier::external_body]
fn to_lowercase(s: &str) -> (r: String)
    ensures
        r@ == lowercase(s@),
{
    s.to_lowercase()
}

/// Puts an already lower-cased variant name between `new_` and `_unsafe`.
pub fn constructor_name_around_lowered(lowered: &str) -> (r: String)
    ensures
        r@ == constructor_name_around(lowered@),
{
    let mut r = "new_".to_owned();
    r.append(lowered);
    r.append("_unsafe");
    r
}

/// The constructor name for the enum variant `variant`:
/// `new_<lower-cased variant>_unsafe`. Two variants that differ only in
/// case receive the same name; nothing here tells them apart.
pub fn variant_constructor_name(variant: &str) -> (r: String)
    ensures
        r@ == variant_constructor_name_spec(variant@),
{
    let lowered = to_lowercase(variant);
    constructor_name_around_lowered(lowered.as_str())
}

/// The constructor name for a data structure: `new_unsafe`.
pub fn struct_constructor_name() -> (r: String)
    ensures
        r@ == struct_constructor_name_spec(),
{
    "new_unsafe".to_owned()
}

} // verus!
