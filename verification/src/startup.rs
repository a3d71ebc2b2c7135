//! What the running application hands to its operations.

use vstd::prelude::*;

verus! {

/// The address under which the application is reached from outside, as the
/// text that confirmation links start with.
#[derive(Debug)]
pub struct ApplicationBaseUrl(pub String);

impl View for ApplicationBaseUrl {
    type V = Seq<char>;

    open spec fn view(&self) -> Seq<char> {
        self.0@
    }
}

} // verus!
