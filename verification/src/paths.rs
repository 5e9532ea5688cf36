//! The application's directories and the path helpers the supervisor
//! needs: the user's home directory, the normalized form of a path,
//! and the fixed layout of the application's own directories under the
//! home.

use vstd::prelude::*;
use vstd::string::StringExecFns;
use vstd::string::StrSliceExecFns;

use crate::text::{backslashes_doubled, double_backslashes};

verus! {

/// The application's directories, resolved under the user's home.
pub struct Dirs {
    pub root: String,
    pub config: String,
    pub cache: String,
    pub bus: String,
    pub log: String,
    pub bin: String,
}

/// The plain form of a path: what normalization returns. A function of
/// the path alone.
pub uninterp spec fn simplified_path(p: Seq<char>) -> Seq<char>;

/// Relies on `dunce::simplified`: strips a Windows verbatim prefix
/// where that is safe and returns every other path unchanged. The
/// result depends on the path alone.
#[verifier::external_body]
pub fn simplify_path(p: &str) -> (r: String)
    ensures
        r@ == simplified_path(p@),
{
    dunce::simplified(std::path::Path::new(p)).to_string_lossy().into_owned()
}

/// Relies on `dirs::home_dir`: the user's home directory, when the
/// platform reports one. The value depends on the environment, so
/// nothing is promised of it.
#[verifier::external_body]
pub fn home_dir() -> (r: Option<String>) {
    dirs::home_dir().map(|p| p.to_string_lossy().into_owned())
}

/// `base` and `sub` joined with the path separator.
pub open spec fn path_joined(base: Seq<char>, sub: Seq<char>) -> Seq<char> {
    base + "/"@ + sub
}

/// `base` and `sub` joined with the path separator.
pub fn path_join(base: &str, sub: &str) -> (r: String)
    ensures
        r@ == path_joined(base@, sub@),
{
    let mut r = base.to_owned();
    r.append("/");
    r.append(sub);
    proof {
        assert(r@ =~= path_joined(base@, sub@));
    }
    r
}

/// The application's directory layout under a home directory: one
/// hidden root holding the cache (with the rendezvous file), the logs,
/// the bundled binaries and the configuration.
pub fn resolve_dirs(home: &str) -> (r: Dirs)
    ensures
        r.root@ == home@ + "/.dive"@,
        r.cache@ == home@ + "/.dive/host_cache"@,
        r.bus@ == home@ + "/.dive/host_cache/bus"@,
        r.log@ == home@ + "/.dive/log"@,
        r.bin@ == home@ + "/.dive/bin"@,
        r.config@ == home@ + "/.dive/config"@,
{
    let root = concat_str(home, "/.dive");
    let cache = concat_str(home, "/.dive/host_cache");
    let bus = concat_str(home, "/.dive/host_cache/bus");
    let log = concat_str(home, "/.dive/log");
    let bin = concat_str(home, "/.dive/bin");
    let config = concat_str(home, "/.dive/config");
    Dirs { root, config, cache, bus, log, bin }
}

/// The worker's executable search path: on the platform that bundles
/// its tools, the inherited path extended with the bundled `nodejs`
/// and `uv` directories, normalized and with backslashes doubled so
/// they survive later quoting; elsewhere the inherited path unchanged.
pub fn augmented_search_path(inherited: &str, bin_dir: &str, windows: bool) -> (r: String)
    ensures
        windows ==> r@ == inherited@ + ";"@ + backslashes_doubled(
            simplified_path(path_joined(bin_dir@, "nodejs"@)),
        ) + ";"@ + backslashes_doubled(simplified_path(path_joined(bin_dir@, "uv"@))),
        !windows ==> r@ == inherited@,
{
    if windows {
        let nodejs = double_backslashes(simplify_path(path_join(bin_dir, "nodejs").as_str()).as_str());
        let uv = double_backslashes(simplify_path(path_join(bin_dir, "uv").as_str()).as_str());
        let mut r = inherited.to_owned();
        r.append(";");
        r.append(nodejs.as_str());
        r.append(";");
        r.append(uv.as_str());
        proof {
            assert(r@ =~= inherited@ + ";"@ + backslashes_doubled(
                simplified_path(path_joined(bin_dir@, "nodejs"@)),
            ) + ";"@ + backslashes_doubled(simplified_path(path_joined(bin_dir@, "uv"@))));
        }
        r
    } else {
        inherited.to_owned()
    }
}

/// The search path when the environment names none: the shell's
/// answer when it produced one, a fixed default otherwise. An
/// environment that names one keeps it.
pub fn path_or_fallback(env_path: &str, shell_output: Option<String>) -> (r: String)
    ensures
        env_path@.len() > 0 ==> r@ == env_path@,
        env_path@.len() == 0 ==> match shell_output {
            Some(s) => r@ == s@,
            None => r@ == "/opt/homebrew/bin:/usr/local/bin:/usr/bin"@,
        },
{
    if env_path.unicode_len() > 0 {
        env_path.to_owned()
    } else {
        match shell_output {
            Some(s) => s,
            None => "/opt/homebrew/bin:/usr/local/bin:/usr/bin".to_owned(),
        }
    }
}

/// The application's directories, when the platform reports a home
/// directory: every directory lies under the hidden root, the cache
/// holds the rendezvous file.
pub fn project_dirs() -> (r: Option<Dirs>)
    ensures
        r matches Some(d) ==> {
            &&& d.cache@ == d.root@ + "/host_cache"@
            &&& d.bus@ == d.cache@ + "/bus"@
            &&& d.log@ == d.root@ + "/log"@
            &&& d.bin@ == d.root@ + "/bin"@
            &&& d.config@ == d.root@ + "/config"@
        },
{
    match home_dir() {
        Some(home) => {
            let d = resolve_dirs(home.as_str());
            proof {
                reveal_strlit("/.dive");
                reveal_strlit("/.dive/host_cache");
                reveal_strlit("/host_cache");
                reveal_strlit("/.dive/host_cache/bus");
                reveal_strlit("/bus");
                reveal_strlit("/.dive/log");
                reveal_strlit("/log");
                reveal_strlit("/.dive/bin");
                reveal_strlit("/bin");
                reveal_strlit("/.dive/config");
                reveal_strlit("/config");
                assert(d.cache@ =~= d.root@ + "/host_cache"@);
                assert(d.bus@ =~= d.cache@ + "/bus"@);
                assert(d.log@ =~= d.root@ + "/log"@);
                assert(d.bin@ =~= d.root@ + "/bin"@);
                assert(d.config@ =~= d.root@ + "/config"@);
            }
            Some(d)
        },
        None => None,
    }
}

/// The two slices, concatenated.
fn concat_str(a: &str, b: &str) -> (r: String)
    ensures
        r@ == a@ + b@,
{
    let mut r = a.to_owned();
    r.append(b);
    proof {
        assert(r@ =~= a@ + b@);
    }
    r
}

} // verus!
