//! What the defaults of the settings depend on.

use vstd::prelude::*;

verus! {

/// The operating system family that the application runs on.
#[derive(Clone, Copy, Debug, PartialEq, Eq, Structural)]
pub enum Platform {
    Windows,
    MacOs,
    Linux,
    Other,
}

/// What the defaults depend on: the platform and the locale of the user, if known.
#[derive(Debug, PartialEq, Eq)]
pub struct Environment {
    pub platform: Platform,
    pub locale: Option<String>,
}

/// The mathematical value of an [`Environment`].
pub ghost struct EnvironmentView {
    pub platform: Platform,
    pub locale: Option<Seq<char>>,
}

impl View for Environment {
    type V = EnvironmentView;

    open spec fn view(&self) -> EnvironmentView {
        EnvironmentView {
            platform: self.platform,
            locale: match self.locale {
                Some(l) => Some(l@),
                None => None,
            },
        }
    }
}

impl Clone for Environment {
    fn clone(&self) -> (r: Self)
        ensures
            r@ == self@,
    {
        Environment {
            platform: self.platform,
            locale: match &self.locale {
                Some(l) => Some(l.clone()),
                None => None,
            },
        }
    }
}

} // verus!
