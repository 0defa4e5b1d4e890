//! The HTML page served on a plain request to the root path.
//!
//! The page is assembled from the current configuration: custom remote
//! stylesheets as `<link>` tags and custom inline styles as `<style>` blocks,
//! in encounter order — or the default stylesheet reference when no custom
//! CSS is configured — followed by the highlight theme's stylesheet.

use vstd::prelude::*;

use crate::config::Config;

verus! {

/// Whether `needle` occurs contiguously somewhere in `hay`.
pub open spec fn contains_sub(hay: Seq<char>, needle: Seq<char>) -> bool {
    exists|k: int|
        0 <= k && k + needle.len() <= hay.len() && #[trigger] hay.subrange(k, k + needle.len())
            == needle
}

/// A sequence occurs in itself.
pub proof fn lemma_contains_self(s: Seq<char>)
    ensures
        contains_sub(s, s),
{
    assert(s.subrange(0, 0 + s.len() as int) =~= s);
}

/// An occurrence on the left survives concatenation on the right.
pub proof fn lemma_contains_sub_concat_left(a: Seq<char>, b: Seq<char>, needle: Seq<char>)
    requires
        contains_sub(a, needle),
    ensures
        contains_sub(a + b, needle),
{
    let k = choose|k: int|
        0 <= k && k + needle.len() <= a.len() && #[trigger] a.subrange(k, k + needle.len())
            == needle;
    assert((a + b).subrange(k, k + needle.len() as int) =~= a.subrange(k, k + needle.len() as int));
}

/// An occurrence on the right survives concatenation on the left.
pub proof fn lemma_contains_sub_concat_right(a: Seq<char>, b: Seq<char>, needle: Seq<char>)
    requires
        contains_sub(b, needle),
    ensures
        contains_sub(a + b, needle),
{
    let k = choose|k: int|
        0 <= k && k + needle.len() <= b.len() && #[trigger] b.subrange(k, k + needle.len())
            == needle;
    let j = a.len() as int + k;
    assert((a + b).subrange(j, j + needle.len() as int) =~= b.subrange(k, k + needle.len() as int));
}

/// The `<link>` tag rendered for one remote stylesheet URL.
pub open spec fn link_tag_spec(url: Seq<char>) -> Seq<char> {
    "<link rel=\"stylesheet\" href=\""@ + url + "\">\n"@
}

/// The `<style>` block rendered for one inline stylesheet.
pub open spec fn style_tag_spec(css: Seq<char>) -> Seq<char> {
    "<style>"@ + css + "</style>\n"@
}

/// The default stylesheet reference, rendered only when no custom CSS is
/// configured.
pub open spec fn default_css_tag() -> Seq<char> {
    link_tag_spec("/__/vendor/github-markdown-css/github-markdown.css"@)
}

/// The stylesheet link for the configured highlight theme.
pub open spec fn theme_link_spec(theme: Seq<char>) -> Seq<char> {
    "<link rel=\"stylesheet\" href=\"/__/vendor/highlight.js/styles/"@ + theme + ".min.css\">\n"@
}

/// The `<link>` tags of all remote stylesheets, in order.
pub open spec fn link_tags_spec(links: Seq<Seq<char>>) -> Seq<char>
    decreases links.len(),
{
    if links.len() == 0 {
        Seq::empty()
    } else {
        link_tags_spec(links.drop_last()) + link_tag_spec(links.last())
    }
}

/// The `<style>` blocks of all inline stylesheets, in order.
pub open spec fn style_tags_spec(styles: Seq<Seq<char>>) -> Seq<char>
    decreases styles.len(),
{
    if styles.len() == 0 {
        Seq::empty()
    } else {
        style_tags_spec(styles.drop_last()) + style_tag_spec(styles.last())
    }
}

/// The CSS part of the page: the custom tags in encounter order, or the
/// default stylesheet reference when nothing custom is configured.
pub open spec fn css_section_spec(links: Seq<Seq<char>>, styles: Seq<Seq<char>>) -> Seq<char> {
    if links.len() == 0 && styles.len() == 0 {
        default_css_tag()
    } else {
        link_tags_spec(links) + style_tags_spec(styles)
    }
}

/// Everything of the page before the CSS section.
pub open spec fn page_head() -> Seq<char> {
    "<!DOCTYPE html>\n<html>\n<head>\n<meta charset=\"utf-8\">\n<title>Markdown preview</title>\n"@
}

/// Everything of the page after the highlight theme link.
pub open spec fn page_tail() -> Seq<char> {
    "</head>\n<body>\n<div id=\"markdown-preview\"></div>\n<script src=\"/__/js/markdown_client.js\"></script>\n</body>\n</html>\n"@
}

/// The complete page rendered for a configuration.
pub open spec fn page_spec(config: Config) -> Seq<char> {
    page_head() + css_section_spec(config.css_links.deep_view(), config.custom_styles.deep_view())
        + theme_link_spec(config.highlight_theme@) + page_tail()
}

/// Appends the `<link>` tag for one stylesheet URL.
fn push_link_tag(page: &mut String, url: &str)
    ensures
        final(page)@ == old(page)@ + link_tag_spec(url@),
{
    page.append("<link rel=\"stylesheet\" href=\"");
    page.append(url);
    page.append("\">\n");
    proof {
        assert(page@ =~= old(page)@ + link_tag_spec(url@));
    }
}

/// Appends the `<style>` block for one inline stylesheet.
fn push_style_tag(page: &mut String, css: &str)
    ensures
        final(page)@ == old(page)@ + style_tag_spec(css@),
{
    page.append("<style>");
    page.append(css);
    page.append("</style>\n");
    proof {
        assert(page@ =~= old(page)@ + style_tag_spec(css@));
    }
}

/// Renders the HTML page for the current configuration.
pub fn render_page(config: &Config) -> (page: String)
    ensures
        page@ == page_spec(*config),
{
    let ghost links_view = config.css_links.deep_view();
    let ghost styles_view = config.custom_styles.deep_view();

    let mut page = String::new();
    page.append(
        "<!DOCTYPE html>\n<html>\n<head>\n<meta charset=\"utf-8\">\n<title>Markdown preview</title>\n",
    );
    proof {
        assert(page@ =~= page_head());
    }

    if config.css_links.len() == 0 && config.custom_styles.len() == 0 {
        push_link_tag(&mut page, "/__/vendor/github-markdown-css/github-markdown.css");
        proof {
            assert(page@ =~= page_head() + css_section_spec(links_view, styles_view));
        }
    } else {
        let ghost before_links = page@;
        let n = config.css_links.len();
        let mut i: usize = 0;
        proof {
            assert(link_tags_spec(links_view.take(0)) =~= Seq::<char>::empty());
            assert(page@ =~= before_links + link_tags_spec(links_view.take(0)));
        }
        while i < n
            invariant
                i <= n,
                n == config.css_links.len(),
                links_view == config.css_links.deep_view(),
                page@ == before_links + link_tags_spec(links_view.take(i as int)),
            decreases n - i,
        {
            proof {
                assert(links_view.take(i + 1).drop_last() =~= links_view.take(i as int));
                assert(links_view.take(i + 1).last() == links_view[i as int]);
            }
            push_link_tag(&mut page, config.css_links[i].as_str());
            proof {
                assert(page@ =~= before_links + link_tags_spec(links_view.take(i + 1)));
            }
            i = i + 1;
        }
        proof {
            assert(links_view.take(n as int) =~= links_view);
        }

        let ghost before_styles = page@;
        let m = config.custom_styles.len();
        let mut j: usize = 0;
        proof {
            assert(style_tags_spec(styles_view.take(0)) =~= Seq::<char>::empty());
            assert(page@ =~= before_styles + style_tags_spec(styles_view.take(0)));
        }
        while j < m
            invariant
                j <= m,
                m == config.custom_styles.len(),
                styles_view == config.custom_styles.deep_view(),
                page@ == before_styles + style_tags_spec(styles_view.take(j as int)),
            decreases m - j,
        {
            proof {
                assert(styles_view.take(j + 1).drop_last() =~= styles_view.take(j as int));
                assert(styles_view.take(j + 1).last() == styles_view[j as int]);
            }
            push_style_tag(&mut page, config.custom_styles[j].as_str());
            proof {
                assert(page@ =~= before_styles + style_tags_spec(styles_view.take(j + 1)));
            }
            j = j + 1;
        }
        proof {
            assert(styles_view.take(m as int) =~= styles_view);
            assert(page@ =~= page_head() + css_section_spec(links_view, styles_view));
        }
    }

    page.append("<link rel=\"stylesheet\" href=\"/__/vendor/highlight.js/styles/");
    page.append(config.highlight_theme.as_str());
    page.append(".min.css\">\n");
    proof {
        assert(page@ =~= page_head() + css_section_spec(links_view, styles_view) + theme_link_spec(
            config.highlight_theme@,
        ));
    }

    page.append(
        "</head>\n<body>\n<div id=\"markdown-preview\"></div>\n<script src=\"/__/js/markdown_client.js\"></script>\n</body>\n</html>\n",
    );
    proof {
        assert(page@ =~= page_spec(*config));
    }
    page
}

/// Among the rendered tags of `links`, the tag of every entry occurs.
proof fn lemma_link_tags_contain_each(links: Seq<Seq<char>>, i: int)
    requires
        0 <= i < links.len(),
    ensures
        contains_sub(link_tags_spec(links), link_tag_spec(links[i])),
    decreases links.len(),
{
    if i == links.len() - 1 {
        lemma_contains_self(link_tag_spec(links.last()));
        lemma_contains_sub_concat_right(
            link_tags_spec(links.drop_last()),
            link_tag_spec(links.last()),
            link_tag_spec(links[i]),
        );
    } else {
        lemma_link_tags_contain_each(links.drop_last(), i);
        assert(links.drop_last()[i] == links[i]);
        lemma_contains_sub_concat_left(
            link_tags_spec(links.drop_last()),
            link_tag_spec(links.last()),
            link_tag_spec(links[i]),
        );
    }
}

/// Among the rendered blocks of `styles`, the block of every entry occurs.
proof fn lemma_style_tags_contain_each(styles: Seq<Seq<char>>, i: int)
    requires
        0 <= i < styles.len(),
    ensures
        contains_sub(style_tags_spec(styles), style_tag_spec(styles[i])),
    decreases styles.len(),
{
    if i == styles.len() - 1 {
        lemma_contains_self(style_tag_spec(styles.last()));
        lemma_contains_sub_concat_right(
            style_tags_spec(styles.drop_last()),
            style_tag_spec(styles.last()),
            style_tag_spec(styles[i]),
        );
    } else {
        lemma_style_tags_contain_each(styles.drop_last(), i);
        assert(styles.drop_last()[i] == styles[i]);
        lemma_contains_sub_concat_left(
            style_tags_spec(styles.drop_last()),
            style_tag_spec(styles.last()),
            style_tag_spec(styles[i]),
        );
    }
}

/// Every configured remote stylesheet's `<link>` tag appears in the page.
pub proof fn lemma_page_contains_css_link(config: Config, i: int)
    requires
        0 <= i < config.css_links.deep_view().len(),
    ensures
        contains_sub(page_spec(config), link_tag_spec(config.css_links.deep_view()[i])),
{
    let links = config.css_links.deep_view();
    let styles = config.custom_styles.deep_view();
    let tag = link_tag_spec(links[i]);
    lemma_link_tags_contain_each(links, i);
    lemma_contains_sub_concat_left(link_tags_spec(links), style_tags_spec(styles), tag);
    lemma_contains_sub_concat_right(page_head(), css_section_spec(links, styles), tag);
    lemma_contains_sub_concat_left(
        page_head() + css_section_spec(links, styles),
        theme_link_spec(config.highlight_theme@),
        tag,
    );
    lemma_contains_sub_concat_left(
        page_head() + css_section_spec(links, styles) + theme_link_spec(config.highlight_theme@),
        page_tail(),
        tag,
    );
}

/// Every configured inline stylesheet's `<style>` block appears in the page.
pub proof fn lemma_page_contains_custom_style(config: Config, i: int)
    requires
        0 <= i < config.custom_styles.deep_view().len(),
    ensures
        contains_sub(page_spec(config), style_tag_spec(config.custom_styles.deep_view()[i])),
{
    let links = config.css_links.deep_view();
    let styles = config.custom_styles.deep_view();
    let tag = style_tag_spec(styles[i]);
    lemma_style_tags_contain_each(styles, i);
    lemma_contains_sub_concat_right(link_tags_spec(links), style_tags_spec(styles), tag);
    lemma_contains_sub_concat_right(page_head(), css_section_spec(links, styles), tag);
    lemma_contains_sub_concat_left(
        page_head() + css_section_spec(links, styles),
        theme_link_spec(config.highlight_theme@),
        tag,
    );
    lemma_contains_sub_concat_left(
        page_head() + css_section_spec(links, styles) + theme_link_spec(config.highlight_theme@),
        page_tail(),
        tag,
    );
}

/// The default stylesheet reference stands in the page exactly when no custom
/// CSS is configured: without custom entries the page carries the default
/// tag, and with custom entries the CSS section of the page consists of the
/// custom tags alone.
pub proof fn lemma_default_css_only_when_unconfigured(config: Config)
    ensures
        config.css_links.deep_view().len() == 0 && config.custom_styles.deep_view().len() == 0
            ==> contains_sub(page_spec(config), default_css_tag()),
        config.css_links.deep_view().len() > 0 || config.custom_styles.deep_view().len() > 0
            ==> css_section_spec(config.css_links.deep_view(), config.custom_styles.deep_view())
            == link_tags_spec(config.css_links.deep_view()) + style_tags_spec(
            config.custom_styles.deep_view(),
        ),
{
    let links = config.css_links.deep_view();
    let styles = config.custom_styles.deep_view();
    if links.len() == 0 && styles.len() == 0 {
        lemma_contains_self(default_css_tag());
        lemma_contains_sub_concat_right(page_head(), css_section_spec(links, styles), default_css_tag());
        lemma_contains_sub_concat_left(
            page_head() + css_section_spec(links, styles),
            theme_link_spec(config.highlight_theme@),
            default_css_tag(),
        );
        lemma_contains_sub_concat_left(
            page_head() + css_section_spec(links, styles) + theme_link_spec(
                config.highlight_theme@,
            ),
            page_tail(),
            default_css_tag(),
        );
    }
}

/// The configured highlight theme's stylesheet link appears in the page.
pub proof fn lemma_page_contains_theme_link(config: Config)
    ensures
        contains_sub(page_spec(config), theme_link_spec(config.highlight_theme@)),
{
    let links = config.css_links.deep_view();
    let styles = config.custom_styles.deep_view();
    let tag = theme_link_spec(config.highlight_theme@);
    lemma_contains_self(tag);
    lemma_contains_sub_concat_right(page_head() + css_section_spec(links, styles), tag, tag);
    lemma_contains_sub_concat_left(
        page_head() + css_section_spec(links, styles) + theme_link_spec(config.highlight_theme@),
        page_tail(),
        tag,
    );
}

} // verus!
