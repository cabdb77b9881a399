use vstd::prelude::*;

verus! {

/// The address under which the application is reached from outside, as it is
/// to appear in the links that are mailed out.
#[derive(Debug)]
pub struct ApplicationBaseUrl(pub String);

impl View for ApplicationBaseUrl {
    type V = Seq<char>;

    open spec fn view(&self) -> Seq<char> {
        self.0@
    }
}

} // verus!
