//! A small demonstration component whose source file can be touched to
//! trigger HMR updates.

use vstd::prelude::*;
use vstd::string::*;
use crate::text;
use crate::text::dec_signed_of;

verus! {

/// Demonstration component with a counter value and a greeting.
pub struct TestComponent {
    /// Current counter value.
    pub value: i32,
    /// Greeting shown when the component renders.
    pub message: String,
}

/// What [`TestComponent::render`] produces for a component with value `v`
/// and message `m`.
pub open spec fn rendered(v: int, m: Seq<char>) -> Seq<char> {
    "TestComponent { value: "@ + dec_signed_of(v) + ", message: '"@ + m + "' }"@
}

impl TestComponent {
    /// Fresh component with the initial value and greeting.
    pub fn new() -> (r: Self)
        ensures
            r.value == 42,
            r.message@ == "Hello from Orbit HMR!"@,
    {
        TestComponent { value: 42, message: text::to_string("Hello from Orbit HMR!") }
    }

    /// Replace the counter value.
    pub fn update(&mut self, new_value: i32)
        ensures
            final(self).value == new_value,
            final(self).message == old(self).message,
    {
        self.value = new_value;
    }

    /// The component's textual rendering.
    pub fn render(&self) -> (r: String)
        ensures
            r@ == rendered(self.value as int, self.message@),
    {
        let mut out = text::to_string("TestComponent { value: ");
        let num = text::i32_to_string(self.value);
        out.append(num.as_str());
        out.append(", message: '");
        out.append(self.message.as_str());
        out.append("' }");
        proof {
            assert(out@ =~= rendered(self.value as int, self.message@));
        }
        out
    }
}

} // verus!
