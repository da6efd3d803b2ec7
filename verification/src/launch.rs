//! Where the target's executable may be found, and what it is started with.

use vstd::prelude::*;
use vstd::string::*;
use crate::decimal::{decimal, push_decimal};
use crate::failure::{Failure, FailureView};

verus! {

/// The kind of system the program runs on.
#[derive(Debug, Clone, Copy, PartialEq, Eq, Structural)]
pub enum Platform {
    /// Not supported: no place is searched.
    Windows,
    MacOs,
    /// Linux and the like.
    Other,
}

/// What `str::to_lowercase` returns for `text`.
pub uninterp spec fn lowercase(text: Seq<char>) -> Seq<char>;

/// Calls `str::to_lowercase`.
///
/// Trusted: the result depends on the text alone.
#[verifier::external_body]
fn to_lowercase(text: &str) -> (r: String)
    ensures
        r@ == lowercase(text@),
{
    text.to_lowercase()
}

/// The places searched on macOS: the application bundle under the name as given, then
/// under the name in lower case.
pub open spec fn mac_places(name: Seq<char>, lower: Seq<char>) -> Seq<Seq<char>> {
    seq![
        "/Applications/"@ + name + ".app/Contents/MacOS/"@ + name,
        "/Applications/"@ + lower + ".app/Contents/MacOS/"@ + lower,
    ]
}

/// The places searched elsewhere: the usual directories for executables under the name in
/// lower case, then the AppImage under the name as given in the home directory.
pub open spec fn other_places(name: Seq<char>, lower: Seq<char>, home: Seq<char>) -> Seq<
    Seq<char>,
> {
    seq![
        "/usr/bin/"@ + lower,
        "/usr/local/bin/"@ + lower,
        "/opt/"@ + lower + "/"@ + lower,
        "/opt/"@ + lower + "/bin/"@ + lower,
        "/snap/"@ + lower + "/current/"@ + lower,
        home + "/Applications/"@ + name + ".AppImage"@,
    ]
}

/// The places searched for the executable of `name`, in the order in which they are tried.
pub open spec fn places(platform: Platform, name: Seq<char>, lower: Seq<char>, home: Seq<char>)
    -> Seq<Seq<char>> {
    match platform {
        Platform::Windows => Seq::empty(),
        Platform::MacOs => mac_places(name, lower),
        Platform::Other => other_places(name, lower, home),
    }
}

/// The texts of a list of strings.
pub open spec fn texts(list: Seq<String>) -> Seq<Seq<char>> {
    list.map_values(|s: String| s@)
}

fn join2(a: &str, b: &str) -> (r: String)
    ensures
        r@ == a@ + b@,
{
    String::from_str(a).concat(b)
}

fn join4(a: &str, b: &str, c: &str, d: &str) -> (r: String)
    ensures
        r@ == a@ + b@ + c@ + d@,
{
    String::from_str(a).concat(b).concat(c).concat(d)
}

/// The places to search, given the name also in lower case.
pub fn places_for(platform: Platform, name: &str, lower: &str, home: &str) -> (r: Vec<String>)
    ensures
        texts(r@) == places(platform, name@, lower@, home@),
{
    let mut r: Vec<String> = Vec::new();
    match platform {
        Platform::Windows => {},
        Platform::MacOs => {
            r.push(join4("/Applications/", name, ".app/Contents/MacOS/", name));
            r.push(join4("/Applications/", lower, ".app/Contents/MacOS/", lower));
        },
        Platform::Other => {
            r.push(join2("/usr/bin/", lower));
            r.push(join2("/usr/local/bin/", lower));
            r.push(join4("/opt/", lower, "/", lower));
            r.push(join4("/opt/", lower, "/bin/", lower));
            r.push(join4("/snap/", lower, "/current/", lower));
            r.push(join4(home, "/Applications/", name, ".AppImage"));
        },
    }
    assert(texts(r@) =~= places(platform, name@, lower@, home@));
    r
}

/// The places to search for the executable of `name`, with `home` as the user's home
/// directory.
pub fn candidate_paths(platform: Platform, name: &str, home: &str) -> (r: Vec<String>)
    ensures
        texts(r@) == places(platform, name@, lowercase(name@), home@),
{
    let lower = to_lowercase(name);
    places_for(platform, name, lower.as_str(), home)
}

/// Why no target was started from the places searched: the platform has none, or the
/// executable is in none of them.
pub open spec fn not_started_view(platform: Platform, name: Seq<char>) -> FailureView {
    if platform == Platform::Windows {
        FailureView::UnsupportedPlatform
    } else {
        FailureView::AppNotFound(name)
    }
}

/// The failure to report when none of the places searched gave a running target.
pub fn not_started(platform: Platform, name: &str) -> (r: Failure)
    ensures
        r@ == not_started_view(platform, name@),
{
    match platform {
        Platform::Windows => Failure::UnsupportedPlatform,
        _ => Failure::AppNotFound(String::from_str(name)),
    }
}

/// The argument that makes the target listen for a debugger on `port`.
pub open spec fn port_argument_text(port: nat) -> Seq<char> {
    "--remote-debugging-port="@ + decimal(port)
}

/// The argument to start the target with.
pub fn port_argument(port: u16) -> (r: String)
    ensures
        r@ == port_argument_text(port as nat),
{
    let mut r = String::from_str("--remote-debugging-port=");
    push_decimal(&mut r, port as u64);
    r
}

} // verus!
