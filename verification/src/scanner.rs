pub mod scanner;
pub mod token;

use vstd::prelude::*;

verus! {

} // verus!
