//! The profile record and the fill actions produced from it.
use vstd::prelude::*;
use crate::dom::opt_view;

verus! {

/// A profile attribute that a form field can ask for.
#[derive(Clone, Copy, Debug, PartialEq, Eq, Structural)]
pub enum Category {
    FullName,
    Email,
    Phone,
}

/// A sparse record of personal attributes; `None` means no value is available.
#[derive(Clone, Debug)]
pub struct ProfileData {
    pub full_name: Option<String>,
    pub email: Option<String>,
    pub phone: Option<String>,
}

pub struct ProfileView {
    pub full_name: Option<Seq<char>>,
    pub email: Option<Seq<char>>,
    pub phone: Option<Seq<char>>,
}

impl ProfileView {
    /// The profile's value for category `c`, if any.
    pub open spec fn value(self, c: Category) -> Option<Seq<char>> {
        match c {
            Category::FullName => self.full_name,
            Category::Email => self.email,
            Category::Phone => self.phone,
        }
    }
}

impl View for ProfileData {
    type V = ProfileView;

    open spec fn view(&self) -> ProfileView {
        ProfileView {
            full_name: opt_view(self.full_name),
            email: opt_view(self.email),
            phone: opt_view(self.phone),
        }
    }
}

impl ProfileData {
    /// The value recorded for category `c`, if any.
    pub fn value_of(&self, c: Category) -> (r: Option<&String>)
        ensures
            match r {
                Some(s) => self@.value(c) == Some(s@),
                None => self@.value(c) is None,
            },
    {
        match c {
            Category::FullName => self.full_name.as_ref(),
            Category::Email => self.email.as_ref(),
            Category::Phone => self.phone.as_ref(),
        }
    }
}

/// One fill instruction: put `payload` into the control that `selector` names.
#[derive(Clone, Debug)]
pub struct Action {
    pub selector: String,
    pub action: String,
    pub payload: String,
}

pub struct ActionView {
    pub selector: Seq<char>,
    pub action: Seq<char>,
    pub payload: Seq<char>,
}

impl View for Action {
    type V = ActionView;

    open spec fn view(&self) -> ActionView {
        ActionView { selector: self.selector@, action: self.action@, payload: self.payload@ }
    }
}

} // verus!
