//! Body and attachment extraction: the text that a reader shows for a
//! message, and the list of what can be opened besides it.
//!
//! The parts of a body are walked depth first, in their listed order. Leaf
//! content of type `text/html` is gathered as the HTML of the message, all
//! other leaf content as its plain text. Every part with a file name is an
//! attachment. Where a message has HTML and no plain text, its text is the
//! HTML converted by an outside program; the caller runs that program.

use vstd::prelude::*;
use crate::error::Error;
use crate::message::{
    attachments_model,
    parts_model,
    Attachment,
    AttachmentModel,
    Body,
    BodyModel,
    Content,
    ContentModel,
};

verus! {

/// The content type whose leaf content counts as HTML.
pub open spec fn html_type() -> Seq<char> {
    "text/html"@
}

/// The plain text that one part contributes.
pub open spec fn part_text(part: BodyModel) -> Seq<char>
    decreases part,
{
    match part.content {
        Some(ContentModel::Str(s)) => if part.content_type == html_type() {
            Seq::empty()
        } else {
            s
        },
        Some(ContentModel::Array(parts)) => parts_text(parts),
        None => Seq::empty(),
    }
}

/// The plain text of a sequence of parts: what each contributes, in order.
pub open spec fn parts_text(parts: Seq<BodyModel>) -> Seq<char>
    decreases parts,
{
    if parts.len() == 0 {
        Seq::empty()
    } else {
        parts_text(parts.drop_last()) + part_text(parts.last())
    }
}

/// The HTML that one part contributes.
pub open spec fn part_html(part: BodyModel) -> Seq<char>
    decreases part,
{
    match part.content {
        Some(ContentModel::Str(s)) => if part.content_type == html_type() {
            s
        } else {
            Seq::empty()
        },
        Some(ContentModel::Array(parts)) => parts_html(parts),
        None => Seq::empty(),
    }
}

/// The HTML of a sequence of parts: what each contributes, in order.
pub open spec fn parts_html(parts: Seq<BodyModel>) -> Seq<char>
    decreases parts,
{
    if parts.len() == 0 {
        Seq::empty()
    } else {
        parts_html(parts.drop_last()) + part_html(parts.last())
    }
}

/// The file attachments of one part: those of its child parts, then the part
/// itself if it has a file name.
pub open spec fn part_files(part: BodyModel) -> Seq<AttachmentModel>
    decreases part,
{
    let nested = match part.content {
        Some(ContentModel::Array(parts)) => parts_files(parts),
        _ => Seq::empty(),
    };
    match part.filename {
        Some(name) => nested.push(AttachmentModel::File(part.id, name, part.content_type)),
        None => nested,
    }
}

/// The file attachments of a sequence of parts, in walk order.
pub open spec fn parts_files(parts: Seq<BodyModel>) -> Seq<AttachmentModel>
    decreases parts,
{
    if parts.len() == 0 {
        Seq::empty()
    } else {
        parts_files(parts.drop_last()) + part_files(parts.last())
    }
}

/// Whether the text of a body has to come from its HTML: it has HTML and no
/// plain text.
pub open spec fn needs_conversion(parts: Seq<BodyModel>) -> bool {
    parts_text(parts).len() == 0 && parts_html(parts).len() > 0
}

/// The attachments of a body: its file attachments in walk order, then its
/// HTML as one more entry if it has any.
pub open spec fn attachments_of(parts: Seq<BodyModel>) -> Seq<AttachmentModel> {
    if parts_html(parts).len() > 0 {
        parts_files(parts).push(AttachmentModel::Html(parts_html(parts)))
    } else {
        parts_files(parts)
    }
}

/// The number of parts with a file name, nested parts included.
pub open spec fn named_parts(parts: Seq<BodyModel>) -> nat
    decreases parts,
{
    if parts.len() == 0 {
        0
    } else {
        named_parts(parts.drop_last()) + match parts.last().content {
            Some(ContentModel::Array(nested)) => named_parts(nested),
            _ => 0,
        } + if parts.last().filename is Some {
            1nat
        } else {
            0nat
        }
    }
}

/// A body of one part has what that part contributes.
proof fn lemma_single_part(part: BodyModel)
    ensures
        parts_text(seq![part]) == part_text(part),
        parts_html(seq![part]) == part_html(part),
        parts_files(seq![part]) == part_files(part),
{
    let one = seq![part];
    let none = Seq::<BodyModel>::empty();
    assert(one.drop_last() == none);
    assert(parts_text(one) == parts_text(none) + part_text(part));
    assert(parts_html(one) == parts_html(none) + part_html(part));
    assert(parts_files(one) == parts_files(none) + part_files(part));
}

/// A body of one leaf that is not HTML and has no file name: its text is the
/// content of the leaf as it is, nothing needs converting, and it has no
/// attachment.
pub proof fn law_plain_leaf(part: BodyModel, content: Seq<char>)
    requires
        part.content == Some(ContentModel::Str(content)),
        part.content_type != html_type(),
        part.filename is None,
    ensures
        !needs_conversion(seq![part]),
        parts_text(seq![part]) == content,
        attachments_of(seq![part]) == Seq::<AttachmentModel>::empty(),
{
    lemma_single_part(part);
}

/// A body of one HTML leaf with content and without a file name: its text has
/// to come from the conversion of that content, and its one attachment is
/// the HTML itself.
pub proof fn law_html_leaf(part: BodyModel, content: Seq<char>)
    requires
        part.content == Some(ContentModel::Str(content)),
        part.content_type == html_type(),
        part.filename is None,
        content.len() > 0,
    ensures
        needs_conversion(seq![part]),
        parts_html(seq![part]) == content,
        attachments_of(seq![part]) == seq![AttachmentModel::Html(content)],
{
    lemma_single_part(part);
}

/// Every part with a file name is listed once, whatever its content type:
/// a part's own entry closes the entries of its subtree, the file entries
/// are as many as there are parts with a file name, and none of them is the
/// entry of the HTML.
pub proof fn law_named_parts_listed_once(parts: Seq<BodyModel>)
    ensures
        parts_files(parts).len() == named_parts(parts),
        forall|k: int|
            0 <= k < parts_files(parts).len() ==> #[trigger] parts_files(parts)[k] is File,
        attachments_of(parts).len() == named_parts(parts) + if parts_html(parts).len() > 0 {
            1nat
        } else {
            0nat
        },
        forall|i: int|
            0 <= i < parts.len() && (#[trigger] parts[i]).filename is Some ==> part_files(
                parts[i],
            ).last() == AttachmentModel::File(
                parts[i].id,
                parts[i].filename.unwrap(),
                parts[i].content_type,
            ),
    decreases parts,
{
    if parts.len() > 0 {
        let last = parts.last();
        law_named_parts_listed_once(parts.drop_last());
        match last.content {
            Some(ContentModel::Array(nested)) => {
                law_named_parts_listed_once(nested);
            },
            _ => {},
        }
        assert(parts_files(parts) == parts_files(parts.drop_last()) + part_files(last));
    }
}

/// Walks `bodys` and appends what they contribute to the three collectors.
fn walk(
    bodys: &Vec<Body>,
    html_type: &String,
    text: &mut String,
    html: &mut String,
    attachments: &mut Vec<Attachment>,
)
    requires
        html_type@ == self::html_type(),
    ensures
        final(text)@ == old(text)@ + parts_text(parts_model(*bodys)),
        final(html)@ == old(html)@ + parts_html(parts_model(*bodys)),
        attachments_model(*final(attachments)) == attachments_model(*old(attachments))
            + parts_files(parts_model(*bodys)),
    decreases bodys,
{
    let ghost all = parts_model(*bodys);
    let ghost text0 = text@;
    let ghost html0 = html@;
    let ghost files0 = attachments_model(*attachments);
    let mut i: usize = 0;
    while i < bodys.len()
        invariant
            i <= bodys.len(),
            all == parts_model(*bodys),
            html_type@ == self::html_type(),
            text@ == text0 + parts_text(all.take(i as int)),
            html@ == html0 + parts_html(all.take(i as int)),
            attachments_model(*attachments) == files0 + parts_files(all.take(i as int)),
        decreases bodys.len() - i,
    {
        let b = &bodys[i];
        assert(all.take(i + 1).drop_last() == all.take(i as int));
        match &b.content {
            Some(Content::Str(s)) => {
                if b.content_type == *html_type {
                    html.append(s.as_str());
                } else {
                    text.append(s.as_str());
                }
            },
            Some(Content::Array(parts)) => {
                walk(parts, html_type, text, html, attachments);
            },
            None => {},
        }
        // Appending is associative: what the part adds comes after what the
        // parts before it added.
        assert(text@ == text0 + (parts_text(all.take(i as int)) + part_text(b@)));
        assert(html@ == html0 + (parts_html(all.take(i as int)) + part_html(b@)));
        let ghost files = attachments_model(*attachments);
        match &b.filename {
            Some(name) => {
                attachments.push(Attachment::File(b.id, name.clone(), b.content_type.clone()));
                assert(attachments_model(*attachments) == files.push(
                    AttachmentModel::File(b@.id, name@, b@.content_type),
                ));
            },
            None => {},
        }
        assert(attachments_model(*attachments) == files0 + (parts_files(all.take(i as int))
            + part_files(b@)));
        i = i + 1;
    }
    assert(all.take(i as int) == all);
}

/// The HTML that has to be converted to text before `bodys` can be shown:
/// the HTML of the body where it has some and no plain text, else `None`.
pub fn conversion_input(bodys: &Vec<Body>) -> (input: Option<String>)
    ensures
        match input {
            Some(html) => needs_conversion(parts_model(*bodys)) && html@ == parts_html(
                parts_model(*bodys),
            ),
            None => !needs_conversion(parts_model(*bodys)),
        },
{
    let html_type = String::from_str("text/html");
    let mut text = String::new();
    let mut html = String::new();
    let mut attachments: Vec<Attachment> = Vec::new();
    walk(bodys, &html_type, &mut text, &mut html, &mut attachments);
    if text.as_str().is_empty() && !html.as_str().is_empty() {
        Some(html)
    } else {
        None
    }
}

/// The text and the attachments of a message body.
///
/// The text is the plain text of the body. Where the body has HTML and no
/// plain text, it is `converted`, the HTML of [`conversion_input`] turned into
/// text by the caller; with `None` there, because the conversion was not to
/// be had, the extraction fails. Otherwise `converted` is not looked at.
///
/// The attachments are the parts with a file name in walk order, a container
/// after its own parts, followed by the HTML of the body where it has any.
pub fn body_attachments(bodys: &Vec<Body>, converted: Option<String>) -> (result: Result<
    (String, Vec<Attachment>),
    Error,
>)
    ensures
        needs_conversion(parts_model(*bodys)) && converted is None ==> result == Err::<
            (String, Vec<Attachment>),
            Error,
        >(Error::ConversionFailed),
        needs_conversion(parts_model(*bodys)) && converted is Some ==> result is Ok
            && result.unwrap().0@ == converted.unwrap()@,
        !needs_conversion(parts_model(*bodys)) ==> result is Ok && result.unwrap().0@
            == parts_text(parts_model(*bodys)),
        result is Ok ==> attachments_model(result.unwrap().1) == attachments_of(
            parts_model(*bodys),
        ),
{
    let html_type = String::from_str("text/html");
    let mut text = String::new();
    let mut html = String::new();
    let mut attachments: Vec<Attachment> = Vec::new();
    walk(bodys, &html_type, &mut text, &mut html, &mut attachments);
    let has_html = !html.as_str().is_empty();
    if text.as_str().is_empty() && has_html {
        match converted {
            Some(rendered) => {
                text = rendered;
            },
            None => {
                return Err(Error::ConversionFailed);
            },
        }
    }
    if has_html {
        attachments.push(Attachment::Html(html));
    }
    Ok((text, attachments))
}

} // verus!
