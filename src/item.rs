use vstd::prelude::*;

verus! {

/// Why an item could not be made.
#[derive(Clone, Copy, Debug, PartialEq, Eq, Structural)]
pub enum ItemError {
    /// The item's name is empty.
    NoName,
}

impl ItemError {
    /// The message that tells a user of the error.
    pub fn message(&self) -> (m: &'static str)
        ensures
            m@ == "No name given to item"@,
    {
        "No name given to item"
    }
}

/// The description an item gets when none is given.
pub open spec fn default_description() -> Seq<char> {
    "A mysterious object"@
}

/// Something a player carries.
pub struct Item {
    pub name: String,
    description: String,
    pub count: i32,
}

impl Item {
    /// The item's name.
    pub closed spec fn label(&self) -> Seq<char> {
        self.name@
    }

    /// How many of the item there are.
    pub closed spec fn amount(&self) -> int {
        self.count as int
    }

    /// The item's description.
    pub closed spec fn description(&self) -> Seq<char> {
        self.description@
    }

    /// One item called `item_name`, described by `desc`, or by the default description where
    /// `desc` is empty. Fails where the name is empty.
    pub fn new(item_name: &str, desc: &str) -> (r: Result<Item, ItemError>)
        ensures
            item_name@.len() == 0 ==> r == Err::<Item, ItemError>(ItemError::NoName),
            item_name@.len() > 0 ==> (r matches Ok(it) && it.label() == item_name@ && it.amount() == 1
                && it.description() == if desc@.len() == 0 {
                default_description()
            } else {
                desc@
            }),
    {
        if item_name.is_empty() {
            return Err(ItemError::NoName);
        }
        let description = if desc.is_empty() {
            "A mysterious object".to_owned()
        } else {
            desc.to_owned()
        };
        Ok(Item { name: item_name.to_owned(), description, count: 1 })
    }

    /// The item's name.
    pub fn label_text(&self) -> (n: &String)
        ensures
            n@ == self.label(),
    {
        &self.name
    }

    /// The item's description.
    pub fn describe(&self) -> (d: String)
        ensures
            d@ == self.description(),
    {
        self.description.clone()
    }
}

} // verus!
