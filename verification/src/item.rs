use vstd::prelude::*;

verus! {

/// The persisted entity: one row of the items table.
///
/// `id` is assigned by the store and immutable once assigned; `name` and
/// `description` are free-form text replaceable through update.
pub struct Item {
    pub id: i32,
    pub name: String,
    pub description: String,
}

/// The mathematical image of an `Item`: the row as ghost data, with the
/// text fields as character sequences.
pub struct Row {
    pub id: int,
    pub name: Seq<char>,
    pub description: Seq<char>,
}

impl Item {
    /// The row this item stands for.
    pub open spec fn row(self) -> Row {
        Row { id: self.id as int, name: self.name@, description: self.description@ }
    }
}

impl Clone for Item {
    fn clone(&self) -> (r: Self)
        ensures
            r == *self,
    {
        Item { id: self.id, name: self.name.clone(), description: self.description.clone() }
    }
}

} // verus!
