use vstd::prelude::*;

verus! {

/// The platform facts that decide the fixed defaults and the path-list format.
/// `MacOs` is a refinement of the Unix family: both kinds of default apply to it.
#[derive(Clone, Copy, Debug, PartialEq, Eq, Structural)]
pub enum Platform {
    Unix,
    MacOs,
    Windows,
    Other,
}

/// The character that joins entries of the search variable.
pub open spec fn list_separator(p: Platform) -> char {
    if p is Windows {
        ';'
    } else {
        ':'
    }
}

/// The character that joins the components of one directory.
pub open spec fn dir_separator(p: Platform) -> char {
    if p is Windows {
        '\\'
    } else {
        '/'
    }
}

/// Whether `c` ends a directory component on platform `p`.
pub open spec fn is_dir_separator(c: char, p: Platform) -> bool {
    c == '/' || (p is Windows && c == '\\')
}

impl Platform {
    pub open spec fn spec_is_unix(self) -> bool {
        self is Unix || self is MacOs
    }

    /// Whether the platform belongs to the Unix family (macOS included).
    pub fn is_unix(&self) -> (r: bool)
        ensures
            r == self.spec_is_unix(),
    {
        match self {
            Platform::Unix | Platform::MacOs => true,
            _ => false,
        }
    }

    /// Whether the platform is macOS.
    pub fn is_macos(&self) -> (r: bool)
        ensures
            r == (*self is MacOs),
    {
        match self {
            Platform::MacOs => true,
            _ => false,
        }
    }

    /// Whether the platform belongs to the Windows family.
    pub fn is_windows(&self) -> (r: bool)
        ensures
            r == (*self is Windows),
    {
        match self {
            Platform::Windows => true,
            _ => false,
        }
    }

    /// The separator of the search variable, as a one-character string.
    pub fn list_separator_str(&self) -> (r: &'static str)
        ensures
            r@ == seq![list_separator(*self)],
    {
        match self {
            Platform::Windows => {
                proof {
                    reveal_strlit(";");
                }
                ";"
            },
            _ => {
                proof {
                    reveal_strlit(":");
                }
                ":"
            },
        }
    }

    /// The separator between directory components, as a one-character string.
    pub fn dir_separator_str(&self) -> (r: &'static str)
        ensures
            r@ == seq![dir_separator(*self)],
    {
        match self {
            Platform::Windows => {
                proof {
                    reveal_strlit("\\");
                }
                "\\"
            },
            _ => {
                proof {
                    reveal_strlit("/");
                }
                "/"
            },
        }
    }
}

} // verus!
