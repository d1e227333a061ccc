use vstd::prelude::*;

verus! {

/// A table's structure: an optional list of field descriptors, kept as given.
#[derive(Debug, Clone)]
pub struct TableSchema<F> {
    pub fields: Option<Vec<F>>,
}

impl<F> TableSchema<F> {
    /// A schema that declares the given fields.
    pub fn new(fields: Vec<F>) -> (r: Self)
        ensures
            r.fields == Some(fields),
    {
        TableSchema { fields: Some(fields) }
    }

    /// The declared fields, if any.
    pub fn fields(&self) -> (r: &Option<Vec<F>>)
        ensures
            *r == self.fields,
    {
        &self.fields
    }

    /// Number of declared fields: zero when none are declared.
    pub fn field_count(&self) -> (r: usize)
        ensures
            r == match self.fields {
                Some(v) => v@.len(),
                None => 0,
            },
    {
        match &self.fields {
            Some(v) => v.len(),
            None => 0,
        }
    }
}

impl<F> Default for TableSchema<F> {
    fn default() -> (r: Self)
        ensures
            r.fields is None,
    {
        TableSchema { fields: None }
    }
}

} // verus!
