//! Runtime configuration of the preview server, and the classification of
//! custom stylesheet entries into remote links and local file paths.

use vstd::prelude::*;

use crate::text::spec_trim_prefix;
use crate::text::str_eq;
use crate::text::trim_prefix;

verus! {

/// Mutable runtime settings, read on every page render and asset-serving
/// decision.
pub struct Config {
    /// Directory under which non-root request paths are served from the file
    /// system; nothing is served until it is set.
    pub static_root: Option<String>,
    /// The highlight.js theme used for code blocks.
    pub highlight_theme: String,
    /// URLs of remote stylesheets, rendered into the page as `<link>` tags in
    /// order.
    pub css_links: Vec<String>,
    /// Full text of local stylesheets, rendered into the page as `<style>`
    /// blocks in order.
    pub custom_styles: Vec<String>,
}

impl Default for Config {
    /// No static root, the "github" highlight theme, and no custom CSS.
    fn default() -> (config: Config)
        ensures
            config.static_root is None,
            config.highlight_theme@ == "github"@,
            config.css_links.deep_view() == Seq::<Seq<char>>::empty(),
            config.custom_styles.deep_view() == Seq::<Seq<char>>::empty(),
    {
        let config = Config {
            static_root: None,
            highlight_theme: String::from_str("github"),
            css_links: Vec::new(),
            custom_styles: Vec::new(),
        };
        proof {
            assert(config.css_links.deep_view() =~= Seq::<Seq<char>>::empty());
            assert(config.custom_styles.deep_view() =~= Seq::<Seq<char>>::empty());
        }
        config
    }
}

/// The URI scheme under which a stylesheet entry parses, absent when the
/// entry is not a URI or has no scheme. A function of the entry alone; its
/// value is fixed by the URI grammar of the `http` crate.
pub uninterp spec fn css_url_scheme(entry: Seq<char>) -> Option<Seq<char>>;

/// Relies on `http::Uri`'s `FromStr` and `Uri::scheme_str`: the scheme under
/// which a string parses as a URI depends on the characters alone.
#[verifier::external_body]
fn parse_entry_scheme(entry: &str) -> (scheme: Option<String>)
    ensures
        match scheme {
            Some(s) => css_url_scheme(entry@) == Some(s@),
            None => css_url_scheme(entry@) is None,
        },
{
    match entry.parse::<http::Uri>() {
        Ok(uri) => uri.scheme_str().map(|s| s.to_owned()),
        Err(_) => None,
    }
}

/// A stylesheet entry is remote when it parses as a URI with scheme `http` or
/// `https`; anything else is treated as a local file path.
pub open spec fn is_remote_entry(entry: Seq<char>) -> bool {
    css_url_scheme(entry) == Some("http"@) || css_url_scheme(entry) == Some("https"@)
}

/// Whether `entry` is a remote stylesheet reference.
pub fn entry_is_remote(entry: &str) -> (remote: bool)
    ensures
        remote == is_remote_entry(entry@),
{
    match parse_entry_scheme(entry) {
        Some(scheme) => {
            let is_http = str_eq(scheme.as_str(), "http");
            let is_https = str_eq(scheme.as_str(), "https");
            is_http || is_https
        },
        None => false,
    }
}

/// `s` with every leading `file://` removed.
pub open spec fn strip_scheme_prefix(s: Seq<char>) -> Seq<char> {
    spec_trim_prefix(s, "file://"@)
}

/// Removes every leading `file://` from `entry`, leaving the file path.
pub fn trim_file_scheme<'a>(entry: &'a str) -> (path: &'a str)
    ensures
        path@ == strip_scheme_prefix(entry@),
{
    trim_prefix(entry, "file://")
}

/// The remote entries of `entries`, in order.
pub open spec fn remote_links(entries: Seq<Seq<char>>) -> Seq<Seq<char>>
    decreases entries.len(),
{
    if entries.len() == 0 {
        Seq::empty()
    } else {
        let rest = remote_links(entries.drop_last());
        if is_remote_entry(entries.last()) {
            rest.push(entries.last())
        } else {
            rest
        }
    }
}

/// The non-remote entries of `entries`, in order, each with every leading
/// `file://` removed.
pub open spec fn local_paths(entries: Seq<Seq<char>>) -> Seq<Seq<char>>
    decreases entries.len(),
{
    if entries.len() == 0 {
        Seq::empty()
    } else {
        let rest = local_paths(entries.drop_last());
        if is_remote_entry(entries.last()) {
            rest
        } else {
            rest.push(strip_scheme_prefix(entries.last()))
        }
    }
}

/// Splits custom stylesheet entries into remote links (kept as URLs) and
/// local file paths (with any `file://` prefix removed), each list in
/// encounter order.
pub fn classify_stylesheets(stylesheets: &Vec<String>) -> (classified: (Vec<String>, Vec<String>))
    ensures
        classified.0.deep_view() == remote_links(stylesheets.deep_view()),
        classified.1.deep_view() == local_paths(stylesheets.deep_view()),
{
    let ghost all = stylesheets.deep_view();
    let mut links: Vec<String> = Vec::new();
    let mut paths: Vec<String> = Vec::new();
    let n = stylesheets.len();
    let mut i: usize = 0;
    proof {
        assert(links.deep_view() =~= remote_links(all.take(0)));
        assert(paths.deep_view() =~= local_paths(all.take(0)));
    }
    while i < n
        invariant
            i <= n,
            n == stylesheets.len(),
            all == stylesheets.deep_view(),
            links.deep_view() == remote_links(all.take(i as int)),
            paths.deep_view() == local_paths(all.take(i as int)),
        decreases n - i,
    {
        let entry = &stylesheets[i];
        let ghost prefix = all.take(i as int);
        proof {
            assert(all.take(i + 1).drop_last() =~= prefix);
            assert(all.take(i + 1).last() == entry@);
        }
        if entry_is_remote(entry.as_str()) {
            let ghost before = links.deep_view();
            links.push(entry.clone());
            proof {
                assert(links.deep_view() =~= before.push(entry@));
            }
        } else {
            let path = trim_file_scheme(entry.as_str());
            let ghost before = paths.deep_view();
            paths.push(path.to_owned());
            proof {
                assert(paths.deep_view() =~= before.push(strip_scheme_prefix(entry@)));
            }
        }
        i = i + 1;
    }
    proof {
        assert(all.take(n as int) =~= all);
    }
    (links, paths)
}

} // verus!
