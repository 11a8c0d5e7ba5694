use crate::method::{MethodBox, MethodKind};
use crate::methods::value_noise::ValueNoise;
use crate::methods::white_noise::WhiteNoise;
use vstd::prelude::*;

verus! {

/// One entry of the registry.
pub struct Registration {
    pub name: String,
    pub kind: MethodKind,
}

/// The method registered under `name`: the entry that was registered last
/// under that name.
pub open spec fn lookup(entries: Seq<(Seq<char>, MethodKind)>, name: Seq<char>) -> Option<
    MethodKind,
>
    decreases entries.len(),
{
    if entries.len() == 0 {
        None
    } else if entries.last().0 == name {
        Some(entries.last().1)
    } else {
        lookup(entries.drop_last(), name)
    }
}

impl MethodKind {
    /// What `build` gives for this kind: a fresh white noise or value noise,
    /// without a program yet and with a parameter struct of no bytes, and
    /// nothing for the kinds that this library knows by name only.
    pub open spec fn built(self, method: Option<MethodBox>) -> bool {
        match method {
            Some(m) => self.built_in() && m.kind() == Some(self) && m.cached_program() is None
                && m.params_size() == 0,
            None => !self.built_in(),
        }
    }

    /// This library holds the method itself, not only its name.
    pub open spec fn built_in(self) -> bool {
        self == MethodKind::WhiteNoise || self == MethodKind::ValueNoise
    }

    /// A fresh instance of the method, where this library holds it.
    pub fn build(&self) -> (method: Option<MethodBox>)
        ensures
            self.built(method),
    {
        match self {
            MethodKind::WhiteNoise => Some(MethodBox::new(Box::new(WhiteNoise::new()))),
            MethodKind::ValueNoise => Some(MethodBox::new(Box::new(ValueNoise::new()))),
            _ => None,
        }
    }
}

/// The methods by name.
pub struct MethodRegistry {
    entries: Vec<Registration>,
}

impl View for MethodRegistry {
    type V = Seq<(Seq<char>, MethodKind)>;

    closed spec fn view(&self) -> Self::V {
        self.entries@.map_values(|e: Registration| (e.name@, e.kind))
    }
}

impl MethodRegistry {
    /// A registry without entries.
    pub fn new() -> (registry: Self)
        ensures
            registry@ == Seq::<(Seq<char>, MethodKind)>::empty(),
    {
        MethodRegistry { entries: Vec::new() }
    }

    /// Registers a method under a name. A later entry hides an earlier one
    /// of the same name.
    pub fn register(&mut self, name: &str, kind: MethodKind)
        ensures
            final(self)@ == old(self)@.push((name@, kind)),
    {
        self.entries.push(Registration { name: name.to_owned(), kind });
    }

    /// The number of entries.
    pub fn len(&self) -> (n: usize)
        ensures
            n == self@.len(),
    {
        self.entries.len()
    }

    /// The method registered under `name`.
    pub fn find(&self, name: &str) -> (kind: Option<MethodKind>)
        ensures
            kind == lookup(self@, name@),
    {
        let wanted = name.to_owned();
        let mut n: usize = self.entries.len();
        assert(self@.subrange(0, n as int) == self@);
        while n > 0
            invariant
                n <= self.entries@.len(),
                wanted@ == name@,
                lookup(self@, name@) == lookup(self@.subrange(0, n as int), name@),
            decreases n,
        {
            let entry = &self.entries[n - 1];
            proof {
                let head = self@.subrange(0, n as int);
                assert(head.last() == (entry.name@, entry.kind));
                assert(head.drop_last() == self@.subrange(0, n - 1));
            }
            if entry.name == wanted {
                return Some(entry.kind);
            }
            n = n - 1;
        }
        assert(self@.subrange(0, 0).len() == 0);
        None
    }

    /// A fresh instance of the method registered under `name`, where there
    /// is one and this library holds it.
    pub fn build(&self, name: &str) -> (method: Option<MethodBox>)
        ensures
            match lookup(self@, name@) {
                Some(kind) => kind.built(method),
                None => method is None,
            },
    {
        match self.find(name) {
            Some(kind) => kind.build(),
            None => None,
        }
    }
}

} // verus!
