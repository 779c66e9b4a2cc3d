//! Component descriptions used by the template system: a component's name,
//! template, typed properties and description, and a small code-generation
//! stub.

use vstd::prelude::*;
use vstd::string::*;
use crate::text;

verus! {

/// The type of one component property.
pub enum PropType {
    /// A text property.
    String,
    /// A numeric property.
    Number,
    /// A boolean property.
    Boolean,
    /// A homogeneous array of the given element type.
    Array(Box<PropType>),
    /// A nested object with the given named fields.
    Object(Vec<(String, PropType)>),
}

/// One component: name, template, typed properties and description.
/// Properties are held in insertion order with unique names.
pub struct Component {
    /// The component's name.
    pub name: String,
    /// The template the component renders.
    pub template: String,
    /// The component's properties, in insertion order.
    pub props: Vec<(String, PropType)>,
    /// Human-readable description.
    pub description: String,
}

/// Index of the property named `k`, searching from position `i` on.
pub open spec fn find_prop(s: Seq<(String, PropType)>, k: Seq<char>, i: int) -> Option<int>
    decreases s.len() - i,
{
    if i < 0 || i >= s.len() {
        None
    } else if s[i].0@ == k {
        Some(i)
    } else {
        find_prop(s, k, i + 1)
    }
}

/// The property names of `s`, in order.
pub open spec fn prop_names(s: Seq<(String, PropType)>) -> Seq<Seq<char>> {
    s.map_values(|p: (String, PropType)| p.0@)
}

/// The names joined with `", "`.
pub open spec fn joined_names(names: Seq<Seq<char>>) -> Seq<char>
    decreases names.len(),
{
    if names.len() == 0 {
        Seq::empty()
    } else if names.len() == 1 {
        names[0]
    } else {
        joined_names(names.drop_last()) + ", "@ + names.last()
    }
}

/// What [`Component::generate_code`] produces for a component named `name`
/// with property names `names`.
pub open spec fn generated_code(name: Seq<char>, names: Seq<Seq<char>>) -> Seq<char> {
    "Component { name: "@ + name + ", props: ["@ + joined_names(names) + "] }"@
}

impl Component {
    /// Component from its parts.
    pub fn new(
        name: String,
        template: String,
        props: Vec<(String, PropType)>,
        description: String,
    ) -> (r: Self)
        ensures
            r.name == name,
            r.template == template,
            r.props == props,
            r.description == description,
    {
        Component { name, template, props, description }
    }

    /// Add a property, overwriting an existing one of the same name in
    /// place and appending a new one.
    pub fn add_prop(&mut self, name: String, prop_type: PropType)
        ensures
            final(self).name == old(self).name,
            final(self).template == old(self).template,
            final(self).description == old(self).description,
            match find_prop(old(self).props@, name@, 0) {
                Some(i) => final(self).props@.len() == old(self).props@.len() && final(self).props@[i].0@ == name@ && (forall|j: int|
                    0 <= j < old(self).props@.len() && j != i ==> final(self).props@[j] == old(
                        self,
                    ).props@[j]),
                None => final(self).props@.len() == old(self).props@.len() + 1 && final(self).props@.last().0@ == name@ && (forall|j: int|
                    0 <= j < old(self).props@.len() ==> final(self).props@[j] == old(
                        self,
                    ).props@[j]),
            },
    {
        let ghost s0 = self.props@;
        let ghost kv = name@;
        let n = self.props.len();
        let mut i: usize = 0;
        while i < n
            invariant
                n == self.props@.len(),
                self.props@ == s0,
                s0 == old(self).props@,
                self.name == old(self).name,
                self.template == old(self).template,
                self.description == old(self).description,
                kv == name@,
                i <= n,
                find_prop(s0, kv, 0) == find_prop(s0, kv, i as int),
            decreases n - i,
        {
            if text::str_eq(self.props[i].0.as_str(), name.as_str()) {
                proof {
                    assert(s0[i as int].0@ == kv);
                    assert(find_prop(s0, kv, 0) == Some(i as int));
                }
                let _ = self.props.remove(i);
                self.props.insert(i, (name, prop_type));
                proof {
                    assert(self.props@.len() == s0.len());
                    assert(self.props@[i as int].0@ == kv);
                    assert forall|j: int|
                        0 <= j < s0.len() && j != i as int implies self.props@[j] == s0[j] by {}
                }
                return ;
            }
            assert(s0[i as int].0@ != kv);
            i += 1;
        }
        assert(find_prop(s0, kv, 0) is None);
        self.props.push((name, prop_type));
    }

    /// A code stub naming the component and its property names, in
    /// insertion order.
    pub fn generate_code(&self) -> (r: String)
        ensures
            r@ == generated_code(self.name@, prop_names(self.props@)),
    {
        let ghost names = prop_names(self.props@);
        let mut out = text::to_string("Component { name: ");
        out.append(self.name.as_str());
        out.append(", props: [");
        let n = self.props.len();
        let mut i: usize = 0;
        while i < n
            invariant
                n == self.props@.len(),
                names == prop_names(self.props@),
                i <= n,
                out@ == "Component { name: "@ + self.name@ + ", props: ["@ + joined_names(
                    names.take(i as int),
                ),
            decreases n - i,
        {
            proof {
                assert(names.take(i + 1).drop_last() =~= names.take(i as int));
                assert(names.take(i + 1).last() == names[i as int]);
                assert(names[i as int] == self.props@[i as int].0@);
            }
            if i > 0 {
                out.append(", ");
            }
            out.append(self.props[i].0.as_str());
            proof {
                assert(out@ =~= "Component { name: "@ + self.name@ + ", props: ["@
                    + joined_names(names.take(i + 1)));
            }
            i += 1;
        }
        out.append("] }");
        proof {
            assert(names.take(n as int) =~= names);
            assert(out@ =~= generated_code(self.name@, names));
        }
        out
    }
}

} // verus!
