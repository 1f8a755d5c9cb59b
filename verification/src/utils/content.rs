use crate::api::models::{ContentType, OutputMessage, ResponseApiResponse};
use crate::utils::text::{join, joined, texts};
use vstd::prelude::*;

verus! {

/// The texts of the items of one content array, in order.
pub open spec fn content_texts(content: Seq<ContentType>) -> Seq<Seq<char>> {
    content.map_values(|item: ContentType| item.display())
}

/// The texts of all items of all messages: message after message, and within
/// a message item after item.
pub open spec fn message_texts(output: Seq<OutputMessage>) -> Seq<Seq<char>>
    decreases output.len(),
{
    if output.len() == 0 {
        Seq::empty()
    } else {
        message_texts(output.drop_last()) + content_texts(output.last().content@)
    }
}

/// What is shown for a list of texts: the texts with one space between each
/// two, or a fixed notice where there is no text at all.
pub open spec fn shown(parts: Seq<Seq<char>>) -> Seq<char> {
    if parts.len() == 0 {
        "No content available"@
    } else {
        joined(parts, " "@)
    }
}

/// The texts of one message alone are the texts of its content.
pub proof fn law_single_message(message: OutputMessage)
    ensures
        message_texts(seq![message]) == content_texts(message.content@),
{
    assert(message_texts(seq![message].drop_last()) =~= Seq::<Seq<char>>::empty());
}

/// The texts of messages one after the other are the texts of the first ones
/// followed by the texts of the later ones.
pub proof fn law_messages_in_order(first: Seq<OutputMessage>, later: Seq<OutputMessage>)
    ensures
        message_texts(first + later) == message_texts(first) + message_texts(later),
    decreases later.len(),
{
    if later.len() > 0 {
        law_messages_in_order(first, later.drop_last());
        assert((first + later).drop_last() =~= first + later.drop_last());
    }
}

/// The kind of a content item does not show: items with the same texts are
/// shown alike.
pub proof fn law_kind_does_not_show(one: Seq<ContentType>, other: Seq<ContentType>)
    requires
        one.len() == other.len(),
        forall|i: int| 0 <= i < one.len() ==> one[i].display() == other[i].display(),
    ensures
        shown(content_texts(one)) == shown(content_texts(other)),
{
    assert(content_texts(one) =~= content_texts(other));
}

/// Two items are shown in their order, with one space between them.
pub proof fn law_two_items(first: ContentType, second: ContentType)
    ensures
        shown(content_texts(seq![first, second])) == first.display() + " "@ + second.display(),
{
    assert(joined(content_texts(seq![first, second]).drop_last(), " "@) == first.display());
}

fn show(parts: &Vec<String>) -> (text: String)
    ensures
        text@ == shown(texts(parts@)),
{
    if parts.len() == 0 {
        "No content available".to_owned()
    } else {
        join(parts, " ")
    }
}

/// Adds the text of each item of `content`, in order, at the end of `parts`.
fn collect_texts(parts: &mut Vec<String>, content: &[ContentType])
    ensures
        texts(final(parts)@) == texts(old(parts)@) + content_texts(content@),
{
    let mut j: usize = 0;
    while j < content.len()
        invariant
            j <= content.len(),
            texts(parts@) == texts(old(parts)@) + content_texts(content@.take(j as int)),
        decreases content.len() - j,
    {
        let ghost before = parts@;
        let text = content[j].text().clone();
        parts.push(text);
        assert(texts(parts@) =~= texts(before).push(text@));
        j += 1;
    }
}

/// The text of an answer for display: the text of every content item of every
/// output message, in order, with one space between each two. An answer
/// without any content item reads "No content available".
pub fn extract_response_content(response: &ResponseApiResponse) -> (text: String)
    ensures
        text@ == shown(message_texts(response.output@)),
{
    let mut parts: Vec<String> = Vec::new();
    let mut i: usize = 0;
    while i < response.output.len()
        invariant
            i <= response.output.len(),
            texts(parts@) == message_texts(response.output@.take(i as int)),
        decreases response.output.len() - i,
    {
        assert(response.output@.take(i + 1).drop_last() =~= response.output@.take(i as int));
        collect_texts(&mut parts, response.output[i].content.as_slice());
        i += 1;
    }
    assert(response.output@.take(i as int) =~= response.output@);
    show(&parts)
}

/// The text of one content array for display, as `extract_response_content`
/// gives it for an answer whose only message holds that array.
pub fn extract_content_from_array(content_array: &[ContentType]) -> (text: String)
    ensures
        text@ == shown(content_texts(content_array@)),
{
    let mut parts: Vec<String> = Vec::new();
    collect_texts(&mut parts, content_array);
    show(&parts)
}

} // verus!
