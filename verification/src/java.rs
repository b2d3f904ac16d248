pub mod class;
pub mod class_loader;
pub mod field;
pub mod java_io;
pub mod java_lang;
pub mod method;
pub mod package;

use vstd::prelude::*;

verus! {

} // verus!
