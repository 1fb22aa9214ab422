use vstd::prelude::*;

verus! {

/// The error of a month name that is none of the twelve.
#[derive(Debug, Clone, Copy, PartialEq, Eq, Structural)]
pub struct UnknownMonth;

/// The number of the month that a French name stands for, if it is the
/// name of a month in the spelling that the calendar pages use.
pub open spec fn month_number(name: Seq<char>) -> Option<u32> {
    if name == "janvier"@ {
        Some(1)
    } else if name == "fevrier"@ {
        Some(2)
    } else if name == "mars"@ {
        Some(3)
    } else if name == "avril"@ {
        Some(4)
    } else if name == "mai"@ {
        Some(5)
    } else if name == "juin"@ {
        Some(6)
    } else if name == "juillet"@ {
        Some(7)
    } else if name == "aout"@ {
        Some(8)
    } else if name == "septembre"@ {
        Some(9)
    } else if name == "octobre"@ {
        Some(10)
    } else if name == "novembre"@ {
        Some(11)
    } else if name == "décembre"@ {
        Some(12)
    } else {
        None
    }
}

/// Whether the two texts are the same.
fn same(name: &String, word: &str) -> (yes: bool)
    ensures
        yes == (name@ == word@),
{
    *name == word.to_owned()
}

/// The number of the month that a French name stands for.
pub fn get_month_num(month_name: &str) -> (found: Result<u32, UnknownMonth>)
    ensures
        match month_number(month_name@) {
            Some(n) => found == Ok::<u32, UnknownMonth>(n),
            None => found is Err,
        },
{
    let name = month_name.to_owned();
    if same(&name, "janvier") {
        Ok(1)
    } else if same(&name, "fevrier") {
        Ok(2)
    } else if same(&name, "mars") {
        Ok(3)
    } else if same(&name, "avril") {
        Ok(4)
    } else if same(&name, "mai") {
        Ok(5)
    } else if same(&name, "juin") {
        Ok(6)
    } else if same(&name, "juillet") {
        Ok(7)
    } else if same(&name, "aout") {
        Ok(8)
    } else if same(&name, "septembre") {
        Ok(9)
    } else if same(&name, "octobre") {
        Ok(10)
    } else if same(&name, "novembre") {
        Ok(11)
    } else if same(&name, "décembre") {
        Ok(12)
    } else {
        Err(UnknownMonth)
    }
}

} // verus!
