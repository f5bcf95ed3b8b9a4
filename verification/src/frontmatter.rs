//! Frontmatter extraction: a document may begin with a fenced TOML metadata
//! block; the document is parsed into a syntax tree that recognizes such
//! blocks, and the first one's raw text is returned. A document without one
//! yields the empty string, which downstream metadata validation rejects.

use vstd::prelude::*;

verus! {

/// The top-level nodes of a document's markdown syntax tree, each reduced to
/// the raw text of its TOML frontmatter block where it is one and `None`
/// where it is any other kind of node.
pub uninterp spec fn frontmatter_blocks_of(s: Seq<char>) -> Seq<Option<Seq<char>>>;

/// The HTML rendering of a markdown document (GitHub-flavored markdown with
/// the frontmatter construct enabled, so a leading metadata block is not
/// rendered).
pub uninterp spec fn md_html_of(s: Seq<char>) -> Seq<char>;

/// Relies on markdown's `to_mdast` with the frontmatter construct enabled:
/// the returned tree's root children, reduced to their TOML values. Without
/// MDX constructs `to_mdast` never errors.
#[verifier::external_body]
fn markdown_frontmatter_blocks(text: &str) -> (r: Vec<Option<String>>)
    ensures
        r.deep_view() == frontmatter_blocks_of(text@),
{
    let mut constructs = markdown::Constructs::default();
    constructs.frontmatter = true;
    let mut opts = markdown::ParseOptions::default();
    opts.constructs = constructs;
    let tree = markdown::to_mdast(text, &opts).unwrap();
    let mut r = Vec::new();
    if let Some(children) = tree.children() {
        for node in children {
            r.push(match node {
                markdown::mdast::Node::Toml(t) => Some(t.value.clone()),
                _ => None,
            });
        }
    }
    r
}

/// Relies on markdown's `to_html_with_options` with GitHub-flavored options
/// and the frontmatter construct enabled: the rendering is a function of the
/// text alone, and without MDX constructs it never errors.
#[verifier::external_body]
pub(crate) fn markdown_to_html(text: &str) -> (r: String)
    ensures
        r@ == md_html_of(text@),
{
    let mut constructs = markdown::Constructs::gfm();
    constructs.frontmatter = true;
    let mut parse = markdown::ParseOptions::gfm();
    parse.constructs = constructs;
    let mut opts = markdown::Options::gfm();
    opts.parse = parse;
    markdown::to_html_with_options(text, &opts).unwrap()
}

/// The first frontmatter block among the top-level nodes, or empty text
/// where no node is one.
pub open spec fn spec_first_block(blocks: Seq<Option<Seq<char>>>) -> Seq<char>
    decreases blocks.len(),
{
    if blocks.len() == 0 {
        Seq::empty()
    } else {
        match blocks[0] {
            Some(v) => v,
            None => spec_first_block(blocks.drop_first()),
        }
    }
}

/// What frontmatter extraction yields on a document: the text of its first
/// frontmatter block, or empty text where it has none.
pub open spec fn spec_extract_frontmatter(s: Seq<char>) -> Seq<char> {
    spec_first_block(frontmatter_blocks_of(s))
}

proof fn lemma_first_block_skip(blocks: Seq<Option<Seq<char>>>, i: int)
    requires
        0 <= i < blocks.len(),
        blocks[i] is None,
    ensures
        spec_first_block(blocks.skip(i)) == spec_first_block(blocks.skip(i + 1)),
{
    assert(blocks.skip(i).drop_first() =~= blocks.skip(i + 1));
    assert(blocks.skip(i)[0] == blocks[i]);
}

/// Extract the raw text of a document's leading structured metadata block:
/// the first frontmatter node of its syntax tree, or the empty string where
/// the document has none.
pub fn extract_frontmatter(text: &str) -> (r: String)
    ensures
        r@ == spec_extract_frontmatter(text@),
{
    let blocks = markdown_frontmatter_blocks(text);
    let ghost bv = blocks.deep_view();
    let mut i: usize = 0;
    assert(bv.skip(0) =~= bv);
    loop
        invariant
            0 <= i <= blocks.len(),
            bv == blocks.deep_view(),
            bv == frontmatter_blocks_of(text@),
            spec_first_block(bv.skip(i as int)) == spec_first_block(bv),
        decreases blocks.len() - i,
    {
        if i >= blocks.len() {
            assert(bv.skip(i as int) =~= Seq::<Option<Seq<char>>>::empty());
            return String::new();
        }
        match &blocks[i] {
            Some(v) => {
                assert(bv.skip(i as int)[0] == bv[i as int]);
                return v.clone();
            },
            None => {
                proof {
                    lemma_first_block_skip(bv, i as int);
                }
                i = i + 1;
            },
        }
    }
}

} // verus!
