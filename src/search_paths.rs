use vstd::prelude::*;

use crate::user_dirs::{data_dir, expand_tilde, home_dir, opt_view, tilde_expansion};
use crate::path_list::{
    all_representable, join_entries, join_spec, lemma_split_join, representable, split_entries,
    split_spec, views, EncodingError,
};
use crate::platform::{dir_separator, is_dir_separator, list_separator, Platform};

verus! {

/// The defaults of the Unix family: system-wide local binaries, then the user's local binaries.
pub open spec fn unix_defaults() -> Seq<Seq<char>> {
    seq!["/usr/local/bin"@, "~/.local/bin"@]
}

/// The Homebrew binaries directory of Apple Silicon machines.
pub open spec fn macos_default() -> Seq<char> {
    "/opt/homebrew/bin"@
}

/// The fixed defaults of platform `p`, in the order they follow the configured paths.
pub open spec fn platform_defaults(p: Platform) -> Seq<Seq<char>> {
    (if p.spec_is_unix() {
        unix_defaults()
    } else {
        seq![]
    }) + (if p is MacOs {
        seq![macos_default()]
    } else {
        seq![]
    })
}

/// The configured extra paths; an absent configuration contributes none.
pub open spec fn configured_entries(configured: Option<Vec<String>>) -> Seq<Seq<char>> {
    match configured {
        Some(v) => views(v@),
        None => seq![],
    }
}

/// `out` is `src` with each entry tilde-expanded against `home`, in the same order.
pub open spec fn is_expansion(src: Seq<Seq<char>>, home: Option<Seq<char>>, out: Seq<Seq<char>>) -> bool {
    &&& out.len() == src.len()
    &&& forall|i: int| 0 <= i < src.len() ==> tilde_expansion(src[i], home, #[trigger] out[i])
}

/// `base` extended by the component `comp`, with a directory separator between them
/// unless `base` is empty or already ends with one.
pub open spec fn joined(base: Seq<char>, comp: Seq<char>, p: Platform) -> Seq<char> {
    if base.len() == 0 || is_dir_separator(base.last(), p) {
        base + comp
    } else {
        base + seq![dir_separator(p)] + comp
    }
}

/// Where npm installs executables, relative to the directory that the platform asks about.
pub open spec fn npm_suffix(p: Platform) -> Seq<char> {
    if p is Windows {
        "npm"@
    } else {
        ".npm-global/bin"@
    }
}

/// The npm entry of `p`, given the application-data directory (Windows) or the home directory.
pub open spec fn npm_entries(p: Platform, dir: Option<Seq<char>>) -> Seq<Seq<char>> {
    match dir {
        Some(d) => seq![joined(d, npm_suffix(p), p)],
        None => seq![],
    }
}

/// The entries of the current search variable; an absent variable has none.
pub open spec fn current_entries(current: Option<Seq<char>>, p: Platform) -> Seq<Seq<char>> {
    match current {
        Some(c) => split_spec(c, list_separator(p)),
        None => seq![],
    }
}

/// The value of the search variable that lists `entries`, if each of them can stand in it.
pub open spec fn render_spec(entries: Seq<Seq<char>>, p: Platform) -> Option<Seq<char>> {
    if all_representable(entries, p) {
        Some(join_spec(entries, list_separator(p)))
    } else {
        None
    }
}

/// An ordered list of directories in which to look for executables.
/// Each operation takes the list by value and hands it on, and rendering consumes it.
pub struct SearchPaths {
    paths: Vec<String>,
}

impl View for SearchPaths {
    type V = Seq<Seq<char>>;

    closed spec fn view(&self) -> Seq<Seq<char>> {
        views(self.paths@)
    }
}

/// `base` extended by the component `comp` as a directory path of `p`.
fn join_dir(base: &String, comp: &str, p: Platform) -> (r: String)
    ensures
        r@ == joined(base@, comp@, p),
{
    let n = base.as_str().unicode_len();
    if n == 0 {
        return comp.to_owned();
    }
    let last = base.as_str().get_char(n - 1);
    let mut out = base.clone();
    if !(last == '/' || (p.is_windows() && last == '\\')) {
        out.append(p.dir_separator_str());
    }
    out.append(comp);
    out
}

impl SearchPaths {
    /// The list assembled from the configured paths, the platform defaults and
    /// the given home directory: configured paths first, then the Unix defaults,
    /// then the macOS default, each tilde-expanded against `home`.
    pub fn assemble(configured: Option<Vec<String>>, platform: Platform, home: Option<String>) -> (r: SearchPaths)
        ensures
            is_expansion(
                configured_entries(configured) + platform_defaults(platform),
                opt_view(home),
                r@,
            ),
    {
        let ghost conf = configured_entries(configured);
        let mut sources: Vec<String> = match configured {
            Some(v) => v,
            None => Vec::new(),
        };
        assert(views(sources@) == conf);
        if platform.is_unix() {
            sources.push("/usr/local/bin".to_owned());
            sources.push("~/.local/bin".to_owned());
        }
        if platform.is_macos() {
            sources.push("/opt/homebrew/bin".to_owned());
        }
        assert(views(sources@) =~= conf + platform_defaults(platform));
        let ghost src = views(sources@);
        let mut paths: Vec<String> = Vec::new();
        let mut i: usize = 0;
        while i < sources.len()
            invariant
                src == views(sources@),
                i <= sources@.len(),
                paths@.len() == i,
                forall|j: int| 0 <= j < i ==> tilde_expansion(src[j], opt_view(home), #[trigger] paths@[j]@),
            decreases sources.len() - i,
        {
            let e = expand_tilde(sources[i].as_str(), &home);
            paths.push(e);
            i = i + 1;
        }
        let r = SearchPaths { paths };
        assert forall|j: int| 0 <= j < src.len() implies tilde_expansion(src[j], opt_view(home), #[trigger] r@[j]) by {
            assert(r@[j] == paths@[j]@);
        }
        r
    }

    /// The initial list: the configured extra paths (none when absent), then the
    /// platform defaults, each tilde-expanded against the current user's home directory.
    pub fn builder(configured: Option<Vec<String>>, platform: Platform) -> (r: SearchPaths)
        ensures
            exists|home: Option<Seq<char>>|
                is_expansion(configured_entries(configured) + platform_defaults(platform), home, r@),
    {
        let home = home_dir();
        let r = SearchPaths::assemble(configured, platform, home);
        assert(is_expansion(configured_entries(configured) + platform_defaults(platform), opt_view(home), r@));
        r
    }

    /// The list extended by the npm directory under `dir`, when there is one:
    /// `<dir>\npm` on Windows (where `dir` is the application-data directory),
    /// `<dir>/.npm-global/bin` elsewhere (where `dir` is the home directory).
    pub fn with_npm_dir(self, platform: Platform, dir: Option<String>) -> (r: SearchPaths)
        ensures
            r@ == self@ + npm_entries(platform, opt_view(dir)),
    {
        let mut paths = self.paths;
        let ghost before = paths@;
        match dir {
            Some(d) => {
                let suffix = if platform.is_windows() {
                    "npm"
                } else {
                    ".npm-global/bin"
                };
                let e = join_dir(&d, suffix, platform);
                paths.push(e);
                assert(views(paths@) =~= views(before).push(e@));
            },
            None => {
                assert(views(paths@) =~= views(before) + seq![]);
            },
        }
        SearchPaths { paths }
    }

    /// The list extended by the npm directory of the current user, when the
    /// platform reports the directory it lies under.
    pub fn with_npm(self, platform: Platform) -> (r: SearchPaths)
        ensures
            exists|dir: Option<Seq<char>>| r@ == self@ + npm_entries(platform, dir),
    {
        let dir = if platform.is_windows() {
            data_dir()
        } else {
            home_dir()
        };
        let r = self.with_npm_dir(platform, dir);
        assert(r@ == self@ + npm_entries(platform, opt_view(dir)));
        r
    }

    /// The value of the search variable: these entries, then those of `current`
    /// (the variable's present value, if it is set), joined by the platform's
    /// separator. Fails when some entry holds the separator or, on Windows, a double quote.
    pub fn env_var(self, current: Option<String>, platform: Platform) -> (r: Result<String, EncodingError>)
        ensures
            match r {
                Ok(s) => render_spec(self@ + current_entries(opt_view(current), platform), platform)
                    == Some(s@),
                Err(_) => render_spec(self@ + current_entries(opt_view(current), platform), platform) is None,
            },
    {
        let ghost mine = self@;
        let mut all = self.paths;
        match current {
            Some(c) => {
                let mut more = split_entries(c.as_str(), platform);
                let ghost before = all@;
                all.append(&mut more);
                assert(views(all@) =~= views(before) + split_spec(c@, list_separator(platform)));
            },
            None => {
                assert(views(all@) =~= mine + seq![]);
            },
        }
        join_entries(&all, platform)
    }

    /// The entries in their present order.
    pub fn entries(&self) -> (r: &Vec<String>)
        ensures
            views(r@) == self@,
    {
        &self.paths
    }
}

/// The rendered search variable lists, in this order and with nothing dropped,
/// merged or moved: the configured paths tilde-expanded, the Unix defaults, the
/// macOS default, the npm directory, then the entries of the current variable.
/// Splitting the rendered value at the separator gives exactly that sequence
/// (whenever the sequence is not empty).
pub proof fn lemma_render_order(
    configured: Seq<Seq<char>>,
    platform: Platform,
    home: Option<Seq<char>>,
    assembled: Seq<Seq<char>>,
    npm_dir: Option<Seq<char>>,
    current: Option<Seq<char>>,
)
    requires
        is_expansion(configured + platform_defaults(platform), home, assembled),
    ensures
        ({
            let defaults = platform_defaults(platform);
            let npm = npm_entries(platform, npm_dir);
            let env = current_entries(current, platform);
            let full = assembled + npm + env;
            let (c, d, n) = (configured.len(), defaults.len(), npm.len());
            &&& full.len() == c + d + n + env.len()
            &&& forall|i: int| 0 <= i < c ==> tilde_expansion(configured[i], home, #[trigger] full[i])
            &&& forall|i: int| 0 <= i < d ==> tilde_expansion(defaults[i], home, #[trigger] full[c + i])
            &&& forall|i: int| 0 <= i < n ==> #[trigger] full[c + d + i] == npm[i]
            &&& forall|i: int| 0 <= i < env.len() ==> #[trigger] full[c + d + n + i] == env[i]
            &&& (render_spec(full, platform) is Some && full.len() > 0) ==> split_spec(
                render_spec(full, platform)->0,
                list_separator(platform),
            ) == full
        }),
{
    let defaults = platform_defaults(platform);
    let src = configured + defaults;
    let npm = npm_entries(platform, npm_dir);
    let env = current_entries(current, platform);
    let full = assembled + npm + env;
    let (c, d, n) = (configured.len(), defaults.len(), npm.len());
    assert forall|i: int| 0 <= i < c implies tilde_expansion(configured[i], home, #[trigger] full[i]) by {
        assert(src[i] == configured[i]);
        assert(full[i] == assembled[i]);
    }
    assert forall|i: int| 0 <= i < d implies tilde_expansion(defaults[i], home, #[trigger] full[c + i]) by {
        assert(src[c + i] == defaults[i]);
        assert(full[c + i] == assembled[c + i]);
    }
    if render_spec(full, platform) is Some && full.len() > 0 {
        let sep = list_separator(platform);
        assert forall|i: int| 0 <= i < full.len() implies !(#[trigger] full[i]).contains(sep) by {
            assert(representable(full[i], platform));
        }
        lemma_split_join(full, sep);
    }
}

/// A configured entry `~/bin` becomes `<home>/bin` for any known home directory,
/// and keeps its place ahead of every platform default.
pub proof fn lemma_home_relative_expanded(
    configured: Seq<Seq<char>>,
    platform: Platform,
    home: Seq<char>,
    assembled: Seq<Seq<char>>,
    i: int,
)
    requires
        is_expansion(configured + platform_defaults(platform), Some(home), assembled),
        0 <= i < configured.len(),
        configured[i] == "~/bin"@,
    ensures
        assembled[i] == home + "/bin"@,
        i < configured.len() <= assembled.len() - platform_defaults(platform).len(),
{
    reveal_strlit("~/bin");
    reveal_strlit("/bin");
    assert((configured + platform_defaults(platform))[i] == configured[i]);
    assert(configured[i].drop_first() =~= "/bin"@);
}

} // verus!
