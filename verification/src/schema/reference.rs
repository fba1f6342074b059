//! References to types: a name, wrapped in list and non-null markers.

use vstd::prelude::*;

verus! {

/// A reference to a type as a schema writes it: `Name`, `[Type]` or
/// `Type!`.
#[derive(Debug, PartialEq)]
pub enum TypeReference {
    /// A type by its name.
    Named(String),
    /// A list of the inner type.
    List(Box<TypeReference>),
    /// The inner type without `null`.
    NonNull(Box<TypeReference>),
}

impl TypeReference {
    /// The name at the core of the reference, under all its wrappers.
    pub open spec fn spec_innermost_name(&self) -> Seq<char>
        decreases self,
    {
        match self {
            TypeReference::Named(name) => name@,
            TypeReference::List(inner) => inner.spec_innermost_name(),
            TypeReference::NonNull(inner) => inner.spec_innermost_name(),
        }
    }

    /// Whether the reference admits lists: it is a list, or a non-null
    /// wrapper directly around one.
    pub open spec fn spec_is_list(&self) -> bool {
        match self {
            TypeReference::List(_) => true,
            TypeReference::NonNull(inner) => **inner is List,
            TypeReference::Named(_) => false,
        }
    }

    /// The name at the core of the reference, under all its wrappers.
    #[must_use]
    pub fn innermost_name(&self) -> (name: &str)
        ensures
            name@ == self.spec_innermost_name(),
        decreases self,
    {
        match self {
            TypeReference::Named(name) => name.as_str(),
            TypeReference::List(inner) => inner.innermost_name(),
            TypeReference::NonNull(inner) => inner.innermost_name(),
        }
    }

    /// Tells whether the outermost wrapper forbids `null`.
    #[must_use]
    pub fn is_non_null(&self) -> (non_null: bool)
        ensures
            non_null == (*self is NonNull),
    {
        match self {
            TypeReference::NonNull(_) => true,
            _ => false,
        }
    }

    /// Tells whether the reference is a list, or a non-null wrapper directly
    /// around a list.
    #[must_use]
    pub fn is_list(&self) -> (list: bool)
        ensures
            list == self.spec_is_list(),
    {
        match self {
            TypeReference::List(_) => true,
            TypeReference::NonNull(inner) => match &**inner {
                TypeReference::List(_) => true,
                _ => false,
            },
            TypeReference::Named(_) => false,
        }
    }
}

impl Clone for TypeReference {
    fn clone(&self) -> (copy: Self)
        ensures
            copy == *self,
        decreases self,
    {
        match self {
            TypeReference::Named(name) => TypeReference::Named(name.clone()),
            TypeReference::List(inner) => TypeReference::List(Box::new((**inner).clone())),
            TypeReference::NonNull(inner) => TypeReference::NonNull(Box::new((**inner).clone())),
        }
    }
}

} // verus!
