use vstd::prelude::*;
use crate::text::{chars_of, push_char};

verus! {

/// `name` with each `/` replaced by `.`.
pub open spec fn binary_name_of(name: Seq<char>) -> Seq<char> {
    name.map_values(|c: char| if c == '/' { '.' } else { c })
}

/// The binary name (`a.b.C`) of the class with the internal name `name`
/// (`a/b/C`), as a class loader expects it.
pub fn binary_class_name(name: &str) -> (r: String)
    ensures
        r@ == binary_name_of(name@),
{
    let chars = chars_of(name);
    let mut r = String::new();
    let mut i: usize = 0;
    while i < chars.len()
        invariant
            i <= chars.len(),
            r@ == binary_name_of(chars@.take(i as int)),
        decreases chars.len() - i,
    {
        let c = chars[i];
        push_char(&mut r, if c == '/' { '.' } else { c });
        assert(binary_name_of(chars@.take(i + 1)) =~= binary_name_of(chars@.take(i as int)).push(
            if c == '/' { '.' } else { c },
        ));
        i = i + 1;
    }
    assert(chars@.take(chars.len() as int) =~= name@);
    r
}

} // verus!
