//! The content tree and the footer applicator.
//!
//! A book is a tree of items, each either a chapter carrying textual
//! content and sub-items, or a structural separator.  Applying a footer
//! appends it to the content of every chapter, recursively, and leaves
//! separators untouched.  Application never adds, removes or reorders
//! nodes, and it does not look for an earlier footer: applying twice
//! appends twice.

use vstd::prelude::*;
use vstd::string::StringExecFns;

verus! {

broadcast use vstd::std_specs::vec::group_vec_axioms;

/// A chapter: renderable textual content and the items nested under it.
#[derive(Debug, PartialEq)]
pub struct Chapter {
    pub content: String,
    pub sub_items: Vec<BookItem>,
}

/// One node of the content tree: a chapter, or a structural separator
/// that annotation leaves untouched.
#[derive(Debug, PartialEq)]
pub enum BookItem {
    Chapter(Chapter),
    Separator,
}

/// The whole content tree: the top-level items in order.
#[derive(Debug, PartialEq)]
pub struct Book {
    pub sections: Vec<BookItem>,
}

/// How an annotated item relates to the item it came from: a separator is
/// unchanged; a chapter keeps its shape, gains the footer at the end of
/// its content, and has every sub-item annotated the same way.
pub open spec fn annotated_item(before: BookItem, after: BookItem, footer: Seq<char>) -> bool
    decreases before,
{
    match before {
        BookItem::Separator => after == BookItem::Separator,
        BookItem::Chapter(c0) => match after {
            BookItem::Chapter(c1) => {
                &&& c1.content@ == c0.content@ + footer
                &&& c1.sub_items.len() == c0.sub_items.len()
                &&& forall|i: int|
                    0 <= i < c0.sub_items.len() ==> annotated_item(
                        c0.sub_items[i],
                        #[trigger] c1.sub_items[i],
                        footer,
                    )
            },
            BookItem::Separator => false,
        },
    }
}

/// How an annotated book relates to the book it came from: the same
/// items, each annotated.
pub open spec fn annotated_book(before: Book, after: Book, footer: Seq<char>) -> bool {
    &&& after.sections.len() == before.sections.len()
    &&& forall|i: int|
        0 <= i < before.sections.len() ==> annotated_item(
            before.sections[i],
            #[trigger] after.sections[i],
            footer,
        )
}

/// Annotates the items of one level in order, each recursively.
#[verifier::loop_isolation(false)]
fn annotate_items(items: Vec<BookItem>, footer: &str) -> (r: Vec<BookItem>)
    ensures
        r.len() == items.len(),
        forall|i: int|
            0 <= i < items.len() ==> annotated_item(items[i], #[trigger] r[i], footer@),
    decreases items,
{
    let ghost gitems = items;
    let ghost orig: Seq<BookItem> = items@;
    let mut rest = items;
    let mut done: Vec<BookItem> = Vec::new();
    while rest.len() > 0
        invariant
            done.len() + rest.len() == orig.len(),
            rest@ == orig.skip(done.len() as int),
            forall|i: int|
                0 <= i < done.len() ==> annotated_item(orig[i], #[trigger] done[i], footer@),
        decreases rest.len(),
    {
        let ghost k = done.len() as int;
        let sub = rest.remove(0);
        proof {
            assert(sub == orig[k]);
            assert(decreases_to!(gitems => gitems[k]));
            assert(rest@ =~= orig.skip(k + 1));
        }
        let annotated = annotate_item(sub, footer);
        done.push(annotated);
    }
    done
}

/// Annotates one item: appends the footer to a chapter's content and
/// recurses into its sub-items; returns a separator unchanged.
pub(crate) fn annotate_item(item: BookItem, footer: &str) -> (r: BookItem)
    ensures
        annotated_item(item, r, footer@),
    decreases item,
{
    match item {
        BookItem::Separator => BookItem::Separator,
        BookItem::Chapter(ch) => {
            let Chapter { mut content, sub_items } = ch;
            content.append(footer);
            let new_subs = annotate_items(sub_items, footer);
            BookItem::Chapter(Chapter { content, sub_items: new_subs })
        },
    }
}

/// Appends the footer to every chapter of the book, in place.
pub fn annotate_book(book: &mut Book, footer: &str)
    ensures
        annotated_book(*old(book), *final(book), footer@),
{
    let mut sections = Vec::new();
    core::mem::swap(&mut book.sections, &mut sections);
    let annotated = annotate_items(sections, footer);
    book.sections = annotated;
}

/// Annotating twice stacks the two footers: what one pass relates by
/// `f` and a second pass relates by `g`, a single pass with `f + g`
/// relates as well.  In particular the applicator does not detect an
/// earlier footer — reapplying the same footer appends a second copy.
pub proof fn lemma_annotate_twice(a: BookItem, b: BookItem, c: BookItem, f: Seq<char>, g: Seq<char>)
    requires
        annotated_item(a, b, f),
        annotated_item(b, c, g),
    ensures
        annotated_item(a, c, f + g),
    decreases a,
{
    match a {
        BookItem::Separator => {
        },
        BookItem::Chapter(c0) => {
            let c1 = b->Chapter_0;
            let c2 = c->Chapter_0;
            assert(c2.content@ =~= c0.content@ + (f + g));
            assert forall|i: int| 0 <= i < c0.sub_items.len() implies annotated_item(
                c0.sub_items[i],
                #[trigger] c2.sub_items[i],
                f + g,
            ) by {
                assert(decreases_to!(c0.sub_items@ => c0.sub_items@[i]));
                lemma_annotate_twice(c0.sub_items[i], c1.sub_items[i], c2.sub_items[i], f, g);
            }
        },
    }
}

} // verus!
