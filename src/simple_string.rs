use vstd::prelude::*;

verus! {

/// Stores one user name; the empty name until one is set.
pub struct SimpleStringContract {
    user_name: Option<String>,
}

impl SimpleStringContract {
    /// The stored name, empty when none was set.
    pub closed spec fn name(&self) -> Seq<char> {
        match self.user_name {
            Some(s) => s@,
            None => Seq::empty(),
        }
    }

    pub fn new() -> (r: SimpleStringContract)
        ensures
            r.name() == Seq::<char>::empty(),
    {
        SimpleStringContract { user_name: None }
    }

    /// Stores `value` and returns it.
    pub fn set_user_name(&mut self, value: String) -> (r: String)
        ensures
            final(self).name() == value@,
            r@ == value@,
    {
        self.user_name = Some(value.clone());
        value
    }

    /// The stored name, or the empty string.
    pub fn get_user_name(&self) -> (r: String)
        ensures
            r@ == self.name(),
    {
        match &self.user_name {
            Some(s) => s.clone(),
            None => String::new(),
        }
    }
}

} // verus!
