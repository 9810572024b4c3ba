//! A built-in ASCII world: `x` marks a block, `p` the player start.

use vstd::prelude::*;

verus! {

/// The built-in world map, row by row: a 20-by-20 walled box with a few
/// inner walls and the player start.
pub fn build_world() -> (r: Vec<String>)
    ensures
        r@.len() == 20,
        r@[0]@ == "xxxxxxxxxxxxxxxxxxxx"@,
        r@[1]@ == "x                  x"@,
        r@[2]@ == "x p                x"@,
        r@[3]@ == "x  x     xxxxx     x"@,
        r@[4]@ == "x  x         x     x"@,
        r@[5]@ == "x  x         x     x"@,
        r@[6]@ == "x  x         x     x"@,
        r@[7]@ == "x  x         x     x"@,
        r@[8]@ == "x  x         x     x"@,
        r@[9]@ == "x  x         x     x"@,
        r@[10]@ == "x  x         x     x"@,
        r@[11]@ == "x  x         xxx   x"@,
        r@[12]@ == "x      x x         x"@,
        r@[13]@ == "x     xxxxx        x"@,
        r@[14]@ == "x      xxx         x"@,
        r@[15]@ == "x       x          x"@,
        r@[16]@ == "x                  x"@,
        r@[17]@ == "x                  x"@,
        r@[18]@ == "x                  x"@,
        r@[19]@ == "xxxxxxxxxxxxxxxxxxxx"@,
{
    let mut rows: Vec<String> = Vec::new();
    rows.push("xxxxxxxxxxxxxxxxxxxx".to_owned());
    rows.push("x                  x".to_owned());
    rows.push("x p                x".to_owned());
    rows.push("x  x     xxxxx     x".to_owned());
    rows.push("x  x         x     x".to_owned());
    rows.push("x  x         x     x".to_owned());
    rows.push("x  x         x     x".to_owned());
    rows.push("x  x         x     x".to_owned());
    rows.push("x  x         x     x".to_owned());
    rows.push("x  x         x     x".to_owned());
    rows.push("x  x         x     x".to_owned());
    rows.push("x  x         xxx   x".to_owned());
    rows.push("x      x x         x".to_owned());
    rows.push("x     xxxxx        x".to_owned());
    rows.push("x      xxx         x".to_owned());
    rows.push("x       x          x".to_owned());
    rows.push("x                  x".to_owned());
    rows.push("x                  x".to_owned());
    rows.push("x                  x".to_owned());
    rows.push("xxxxxxxxxxxxxxxxxxxx".to_owned());
    rows
}

} // verus!
