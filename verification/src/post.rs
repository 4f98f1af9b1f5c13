use vstd::prelude::*;

use crate::text::{
    lemma_replace_absent, lemma_replace_first_occurrence, occurs_in, replace_all, replace_all_str,
};

verus! {

/// The file that holds the post template.
pub const POST_TEMPLATE_FILE: &'static str = "post_template.html";

/// The text that a post template holds where the post's HTML goes.
pub open spec fn post_placeholder() -> Seq<char> {
    "{{POST_CONTENTS}}"@
}

/// The HTML that `markdown::to_html` produces for a markdown document under
/// its default options (CommonMark). It depends on the document alone.
pub uninterp spec fn markdown_html(source: Seq<char>) -> Seq<char>;

/// Calls `markdown::to_html`. Its contract claims only that the result is the
/// named function `markdown_html` of the document; with the default options
/// the crate's own documentation says the conversion cannot fail (markdown
/// has no syntax errors), so the call does not panic.
#[verifier::external_body]
fn markdown_to_html(source: &str) -> (html: String)
    ensures
        html@ == markdown_html(source@),
{
    markdown::to_html(source)
}

/// Puts a post's HTML into the post template: every `{{POST_CONTENTS}}` in
/// the template is replaced by `html`.
pub fn fill_post_template(template: &str, html: &str) -> (page: String)
    ensures
        page@ == replace_all(template@, post_placeholder(), html@),
{
    proof {
        reveal_strlit("{{POST_CONTENTS}}");
    }
    replace_all_str(template, "{{POST_CONTENTS}}", html)
}

/// Renders a post page: the post's markdown is turned into HTML, which then
/// takes the place of every `{{POST_CONTENTS}}` in the template.
pub fn render_post(template: &str, markdown: &str) -> (page: String)
    ensures
        page@ == replace_all(template@, post_placeholder(), markdown_html(markdown@)),
{
    let html = markdown_to_html(markdown);
    fill_post_template(template, html.as_str())
}

/// The file name of a post's page: the post file's stem followed by `.html`.
pub fn post_page_name(stem: &str) -> (name: String)
    ensures
        name@ == stem@ + ".html"@,
{
    let mut name = String::from_str(stem);
    name.append(".html");
    name
}

/// A template in which the placeholder does not occur comes out of
/// `fill_post_template` unchanged, whatever the HTML.
pub proof fn lemma_template_without_placeholder_unchanged(template: Seq<char>, html: Seq<char>)
    requires
        !occurs_in(template, post_placeholder()),
    ensures
        replace_all(template, post_placeholder(), html) == template,
{
    reveal_strlit("{{POST_CONTENTS}}");
    lemma_replace_absent(template, post_placeholder(), html);
}

/// A template that is the placeholder and nothing else becomes the HTML and
/// nothing else.
pub proof fn lemma_bare_placeholder_becomes_html(html: Seq<char>)
    ensures
        replace_all(post_placeholder(), post_placeholder(), html) == html,
{
    reveal_strlit("{{POST_CONTENTS}}");
    let p = post_placeholder();
    assert(p.subrange(0, p.len() as int) =~= p);
    assert(p.subrange(p.len() as int, p.len() as int) =~= Seq::<char>::empty());
    assert(replace_all(Seq::<char>::empty(), p, html) == Seq::<char>::empty());
    assert(html + Seq::<char>::empty() =~= html);
}

/// Filling a template keeps the text before the first placeholder as it is,
/// puts the whole HTML where that placeholder stood, and fills the rest of the
/// template the same way (the text before it holding no `{`, no placeholder
/// can start there).
pub proof fn lemma_fill_keeps_text_before_placeholder(before: Seq<char>, after: Seq<char>, html: Seq<char>)
    requires
        !before.contains('{'),
    ensures
        replace_all(before + "{{POST_CONTENTS}}"@ + after, post_placeholder(), html) == before + html
            + replace_all(after, post_placeholder(), html),
{
    reveal_strlit("{{POST_CONTENTS}}");
    lemma_replace_first_occurrence(before, post_placeholder(), after, html);
}

} // verus!
