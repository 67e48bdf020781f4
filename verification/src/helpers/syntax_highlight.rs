//! Syntax highlighting of a paste's body, as `syntect` renders it to HTML.
use syntect::highlighting::ThemeSet;
use syntect::html::highlighted_html_for_string;
use syntect::parsing::SyntaxSet;
use vstd::prelude::*;

verus! {

/// Names the HTML that `syntect` renders for `body`, highlighted with the default syntax that
/// knows `extension` and coloured by the theme whose `.tmTheme` text is `theme`; `None` when the
/// theme does not parse, no syntax knows the extension, or the rendering fails.
pub uninterp spec fn highlighted_html(body: Seq<char>, extension: Seq<char>, theme: Seq<u8>) -> Option<Seq<char>>;

/// Parses `theme` with `ThemeSet::load_from_reader`, searches the default syntaxes
/// (`SyntaxSet::load_defaults_newlines`) with `find_syntax_by_extension` for `extension`, and
/// renders `body` with `highlighted_html_for_string`. The result is
/// `highlighted_html(body@, extension@, theme@)`, a function of the three arguments alone.
#[verifier::external_body]
fn syntect_highlight(body: &str, extension: &str, theme: &[u8]) -> (r: Option<String>)
    ensures
        match r {
            Some(h) => highlighted_html(body@, extension@, theme@) == Some(h@),
            None => highlighted_html(body@, extension@, theme@) is None,
        },
{
    let theme = ThemeSet::load_from_reader(&mut std::io::Cursor::new(theme)).ok()?;
    let syntax_set = SyntaxSet::load_defaults_newlines();
    let syntax = syntax_set.find_syntax_by_extension(extension)?;
    highlighted_html_for_string(body, &syntax_set, syntax, &theme).ok()
}

/// The highlighted HTML of a paste's body, given the extension of its file name and the text
/// of the theme file, when it could be read. A file name without extension, or a theme that
/// could not be read, gives no HTML; otherwise the HTML that `syntect` renders from the three.
pub fn generate(body: &str, extension: Option<&str>, theme: Option<&[u8]>) -> (r: Option<String>)
    ensures
        match (extension, theme) {
            (Some(e), Some(t)) => match r {
                Some(h) => highlighted_html(body@, e@, t@) == Some(h@),
                None => highlighted_html(body@, e@, t@) is None,
            },
            _ => r is None,
        },
{
    let extension = match extension {
        Some(e) => e,
        None => return None,
    };
    let theme = match theme {
        Some(t) => t,
        None => return None,
    };
    syntect_highlight(body, extension, theme)
}

/// What becomes of a paste's cached HTML after an edit.
#[derive(Debug)]
pub enum CacheAction {
    /// The cached HTML still holds.
    Keep,
    /// The cached HTML is replaced by this.
    Store(String),
    /// The cached HTML is removed, since no HTML can be made any more.
    Expire,
}

/// What to do with a paste's cached HTML after an edit that `stale` says changed its body or
/// its extension: nothing when it did not; otherwise the fresh HTML, generated from the body,
/// the extension and the theme, or removal when there is none.
pub fn cache_action_after_update(
    stale: bool,
    body: &str,
    extension: Option<&str>,
    theme: Option<&[u8]>,
) -> (a: CacheAction)
    ensures
        !stale ==> a is Keep,
        stale ==> match (extension, theme) {
            (Some(e), Some(t)) => match highlighted_html(body@, e@, t@) {
                Some(h) => (a matches CacheAction::Store(s) && s@ == h),
                None => a is Expire,
            },
            _ => a is Expire,
        },
{
    if !stale {
        return CacheAction::Keep;
    }
    match generate(body, extension, theme) {
        Some(h) => CacheAction::Store(h),
        None => CacheAction::Expire,
    }
}

/// Whether freshly generated HTML may be stored in the cache: only when nothing was cached for
/// the paste in the meantime and the paste still exists, so that an edit or a deletion made in
/// the meantime is not overwritten by stale HTML.
pub fn may_cache(cached_meanwhile: bool, paste_exists: bool) -> (b: bool)
    ensures
        b == (!cached_meanwhile && paste_exists),
{
    !cached_meanwhile && paste_exists
}

} // verus!
