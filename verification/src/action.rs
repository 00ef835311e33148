//! The operations that a user asks for, and the packages they name.
use vstd::prelude::*;

use crate::text::views;

verus! {

/// One operation on the system's packages.
#[derive(Debug, Clone)]
pub enum Action {
    /// Install one or more packages.
    Install { packages: Vec<String> },
    /// Remove one or more packages.
    Remove { packages: Vec<String> },
    /// Update the package indices or the whole system, as the backend does it.
    Update,
    /// Search the repositories.
    Search { query: String },
    /// List the installed packages.
    List,
}

/// An action, with its texts taken by their views.
pub enum Op {
    Install(Seq<Seq<char>>),
    Remove(Seq<Seq<char>>),
    Update,
    Search(Seq<char>),
    List,
}

impl View for Action {
    type V = Op;

    open spec fn view(&self) -> Op {
        match self {
            Action::Install { packages } => Op::Install(views(packages@)),
            Action::Remove { packages } => Op::Remove(views(packages@)),
            Action::Update => Op::Update,
            Action::Search { query } => Op::Search(query@),
            Action::List => Op::List,
        }
    }
}

/// The single package of an installation of exactly one package.
pub open spec fn single_install(a: Action) -> Option<Seq<char>> {
    match a {
        Action::Install { packages } => if packages@.len() == 1 {
            Some(packages@[0]@)
        } else {
            None
        },
        _ => None,
    }
}

/// The first package of an installation of one or more packages.
pub open spec fn first_installed(a: Action) -> Option<Seq<char>> {
    match a {
        Action::Install { packages } => if packages@.len() >= 1 {
            Some(packages@[0]@)
        } else {
            None
        },
        _ => None,
    }
}

/// Whether `action` installs exactly one package.
pub fn is_single_package_install(action: &Action) -> (r: bool)
    ensures
        r == single_install(*action).is_some(),
{
    match action {
        Action::Install { packages } => packages.len() == 1,
        _ => false,
    }
}

/// The name of the first package that `action` installs.
pub fn single_package_name(action: &Action) -> (r: Option<&str>)
    ensures
        r.is_some() == first_installed(*action).is_some(),
        r matches Some(n) ==> n@ == first_installed(*action)->0,
{
    match action {
        Action::Install { packages } => {
            if packages.len() >= 1 {
                Some(packages[0].as_str())
            } else {
                None
            }
        },
        _ => None,
    }
}

/// Whenever `action` installs exactly one package, `single_package_name` names it.
pub proof fn single_install_has_a_name(a: Action)
    ensures
        single_install(a) matches Some(n) ==> first_installed(a) == Some(n),
{
}

/// A text that names a package: a `&str` or a `String`.
pub trait PackageName {
    /// The name, as a text.
    spec fn name_view(&self) -> Seq<char>;

    /// The name, as an owned `String`.
    fn into_name(self) -> (r: String)
        ensures
            r@ == self.name_view(),
    ;
}

impl<'a> PackageName for &'a str {
    open spec fn name_view(&self) -> Seq<char> {
        (*self)@
    }

    fn into_name(self) -> (r: String) {
        self.to_owned()
    }
}

impl PackageName for String {
    open spec fn name_view(&self) -> Seq<char> {
        self@
    }

    fn into_name(self) -> (r: String) {
        self
    }
}

/// A package, by name.
#[derive(Debug, Clone, PartialEq, Eq)]
pub struct Package {
    pub name: String,
}

impl Package {
    /// A package of the given name.
    pub fn new<N: PackageName>(name: N) -> (r: Package)
        ensures
            r.name@ == name.name_view(),
    {
        Package { name: name.into_name() }
    }
}

impl From<&str> for Package {
    /// Same as `Package::new`.
    fn from(value: &str) -> (r: Package)
        ensures
            r.name@ == value@,
    {
        Package::new(value)
    }
}

impl vstd::std_specs::convert::FromSpecImpl<&str> for Package {
    /// A `String` is not determined by its view, so no single value is named
    /// here; `from` states the name of its result instead.
    open spec fn obeys_from_spec() -> bool {
        false
    }

    open spec fn from_spec(v: &str) -> Package {
        arbitrary()
    }
}

} // verus!
