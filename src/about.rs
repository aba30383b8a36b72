use vstd::prelude::*;

verus! {

/// The command's name.
pub const NAME: &'static str = "gwf";

/// The release of this library and its command.
pub const VERSION: &'static str = "0.1.0";

/// Who wrote it.
pub const AUTHORS: &'static str = "Nonanti";

} // verus!
