use vstd::prelude::*;

verus! {

/// The character view of an optional string.
pub open spec fn opt_view(o: Option<String>) -> Option<Seq<char>> {
    match o {
        Some(s) => Some(s@),
        None => None,
    }
}

/// What tilde expansion may turn `s` into when the home directory is `home`:
/// a leading `~` that stands alone or before `/` becomes the home directory;
/// before `\` it may do so too (the expander does it on Windows builds only);
/// every other input, and every input without a known home, is left as it is.
pub open spec fn tilde_expansion(s: Seq<char>, home: Option<Seq<char>>, r: Seq<char>) -> bool {
    if s.len() > 0 && s[0] == '~' && home is Some {
        let rest = s.drop_first();
        let h = home->0;
        if rest.len() == 0 || rest[0] == '/' {
            r == h + rest
        } else if rest[0] == '\\' {
            r == h + rest || r == s
        } else {
            r == s
        }
    } else {
        r == s
    }
}

/// Relies on shellexpand::tilde_with_context: it replaces a leading `~` that is
/// followed by nothing or by `/` (and, when built for Windows, by `\`) with the
/// given home directory, and returns its input unchanged otherwise or when no
/// home directory is given.
#[verifier::external_body]
pub(crate) fn expand_tilde(s: &str, home: &Option<String>) -> (r: String)
    ensures
        tilde_expansion(s@, opt_view(*home), r@),
{
    shellexpand::tilde_with_context(s, || home.as_ref()).into_owned()
}

/// Relies on dirs::home_dir: the current user's home directory, when the
/// platform reports one. A directory whose name is not valid Unicode counts as absent.
#[verifier::external_body]
pub(crate) fn home_dir() -> (r: Option<String>) {
    dirs::home_dir().and_then(|d| d.into_os_string().into_string().ok())
}

/// Relies on dirs::data_dir: the current user's application-data directory, when
/// the platform reports one. A directory whose name is not valid Unicode counts as absent.
#[verifier::external_body]
pub(crate) fn data_dir() -> (r: Option<String>) {
    dirs::data_dir().and_then(|d| d.into_os_string().into_string().ok())
}

} // verus!
