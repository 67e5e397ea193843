//! The messages that can be sent, and the JSON body that stands for each.

use crate::json::{
    array, joined, keys, lemma_joined_push, numbers, object, quoted, strings, views, write_key,
    write_numbers, write_quoted, write_separator, write_strings, Member,
};
use vstd::prelude::*;

verus! {

/// A named binary payload that goes out with a message.
#[derive(Debug)]
pub struct Attachment<'a> {
    pub content: Vec<u8>,
    pub filename: &'a str,
}

/// A message whose body is plain text.
#[derive(Debug)]
pub struct MailText<'a> {
    pub from: &'a str,
    pub to: Vec<&'a str>,
    pub subject: &'a str,
    pub text: &'a str,
    pub attachments: Option<Vec<Attachment<'a>>>,
}

/// A message whose body is HTML.
#[derive(Debug)]
pub struct MailHtml<'a> {
    pub from: &'a str,
    pub to: Vec<&'a str>,
    pub subject: &'a str,
    pub html: &'a str,
    pub attachments: Option<Vec<Attachment<'a>>>,
}

/// What an [`Attachment`] holds.
pub struct AttachmentView {
    pub content: Seq<u8>,
    pub filename: Seq<char>,
}

/// The body of a message: plain text or HTML, never both.
pub enum Body {
    Text(Seq<char>),
    Html(Seq<char>),
}

/// What a message holds, whichever of the two kinds it is.
pub struct Message {
    pub from: Seq<char>,
    pub to: Seq<Seq<char>>,
    pub subject: Seq<char>,
    pub body: Body,
    pub attachments: Option<Seq<AttachmentView>>,
}

/// What each attachment of `list` holds.
pub open spec fn attachment_views(list: Seq<Attachment<'_>>) -> Seq<AttachmentView> {
    list.map_values(|a: Attachment<'_>| a@)
}

/// What an optional list of attachments holds.
pub open spec fn optional_views(list: Option<Vec<Attachment<'_>>>) -> Option<Seq<AttachmentView>> {
    match list {
        Some(v) => Some(attachment_views(v@)),
        None => None,
    }
}

impl View for Attachment<'_> {
    type V = AttachmentView;

    open spec fn view(&self) -> AttachmentView {
        AttachmentView { content: self.content@, filename: self.filename@ }
    }
}

impl View for MailText<'_> {
    type V = Message;

    open spec fn view(&self) -> Message {
        Message {
            from: self.from@,
            to: views(self.to@),
            subject: self.subject@,
            body: Body::Text(self.text@),
            attachments: optional_views(self.attachments),
        }
    }
}

impl View for MailHtml<'_> {
    type V = Message;

    open spec fn view(&self) -> Message {
        Message {
            from: self.from@,
            to: views(self.to@),
            subject: self.subject@,
            body: Body::Html(self.html@),
            attachments: optional_views(self.attachments),
        }
    }
}

impl AttachmentView {
    /// The members of the attachment's object: `content`, then `filename`.
    pub open spec fn members(self) -> Seq<Member> {
        seq![
            Member { key: "content"@, value: array(numbers(self.content)) },
            Member { key: "filename"@, value: quoted(self.filename) },
        ]
    }

    /// The attachment as a JSON object.
    pub open spec fn json(self) -> Seq<char> {
        object(self.members())
    }
}

/// The array elements for a list of attachments: each as its JSON object.
pub open spec fn attachment_texts(list: Seq<AttachmentView>) -> Seq<Seq<char>> {
    list.map_values(|a: AttachmentView| a.json())
}

/// The value of the `attachments` member: `null` for no list, and an array,
/// which may be empty, for a list.
pub open spec fn attachments_json(list: Option<Seq<AttachmentView>>) -> Seq<char> {
    match list {
        Some(l) => array(attachment_texts(l)),
        None => "null"@,
    }
}

impl Body {
    /// The name of the member that carries the body.
    pub open spec fn key(self) -> Seq<char> {
        match self {
            Body::Text(_) => "text"@,
            Body::Html(_) => "html"@,
        }
    }

    /// The body's characters.
    pub open spec fn content(self) -> Seq<char> {
        match self {
            Body::Text(t) => t,
            Body::Html(t) => t,
        }
    }
}

impl Message {
    /// The members of the request body, in the order in which they are sent.
    pub open spec fn members(self) -> Seq<Member> {
        seq![
            Member { key: "from"@, value: quoted(self.from) },
            Member { key: "to"@, value: array(strings(self.to)) },
            Member { key: "subject"@, value: quoted(self.subject) },
            Member { key: self.body.key(), value: quoted(self.body.content()) },
            Member { key: "attachments"@, value: attachments_json(self.attachments) },
        ]
    }

    /// The request body: the JSON object of the message.
    pub open spec fn json(self) -> Seq<char> {
        object(self.members())
    }
}

/// A message that can be sent: it views as a [`Message`] and writes the JSON
/// body that stands for it.
pub trait Mail: View<V = Message> {
    /// The request body for this message.
    fn to_json(&self) -> (text: String)
        ensures
            text@ == self@.json(),
    ;
}

impl<'a> Attachment<'a> {
    /// Appends the attachment as a JSON object.
    pub fn write_json(&self, out: &mut String)
        ensures
            final(out)@ == old(out)@ + self@.json(),
    {
        out.push('{');
        write_key(out, true, "content");
        write_numbers(out, &self.content);
        write_key(out, false, "filename");
        write_quoted(out, self.filename);
        out.push('}');
        proof {
            let m = self@.members();
            let t = m.map_values(|m: Member| m.text());
            assert(t == seq![m[0].text()].push(m[1].text()));
            lemma_joined_push(seq![m[0].text()], m[1].text());
        }
    }
}

/// Appends the value of the `attachments` member for `list`.
pub fn write_attachments(out: &mut String, list: &Option<Vec<Attachment<'_>>>)
    ensures
        final(out)@ == old(out)@ + attachments_json(optional_views(*list)),
{
    match list {
        None => {
            out.append("null");
        },
        Some(items) => {
            out.push('[');
            let n = items.len();
            for i in 0..n
                invariant
                    n == items.len(),
                    out@ == old(out)@ + seq!['['] + joined(
                        attachment_texts(attachment_views(items@)).take(i as int),
                    ),
            {
                proof {
                    let texts = attachment_texts(attachment_views(items@));
                    assert(texts.take(i + 1) == texts.take(i as int).push(texts[i as int]));
                    lemma_joined_push(texts.take(i as int), texts[i as int]);
                }
                write_separator(out, i == 0);
                items[i].write_json(out);
            }
            proof {
                let texts = attachment_texts(attachment_views(items@));
                assert(texts.take(n as int) == texts);
            }
            out.push(']');
        },
    }
}

/// The text of an object of five members, member by member.
pub proof fn lemma_object_of_five(m: Seq<Member>)
    requires
        m.len() == 5,
    ensures
        object(m) == seq!['{'] + m[0].text() + seq![','] + m[1].text() + seq![','] + m[2].text()
            + seq![','] + m[3].text() + seq![','] + m[4].text() + seq!['}'],
{
    let t = m.map_values(|m: Member| m.text());
    let t1 = seq![t[0]];
    let t2 = t1.push(t[1]);
    let t3 = t2.push(t[2]);
    let t4 = t3.push(t[3]);
    assert(t == t4.push(t[4]));
    lemma_joined_push(t1, t[1]);
    lemma_joined_push(t2, t[2]);
    lemma_joined_push(t3, t[3]);
    lemma_joined_push(t4, t[4]);
}

/// Builds the request body from the parts of a message.
fn body_json(
    from: &str,
    to: &Vec<&str>,
    subject: &str,
    html: bool,
    content: &str,
    attachments: &Option<Vec<Attachment<'_>>>,
) -> (text: String)
    ensures
        text@ == (Message {
            from: from@,
            to: views(to@),
            subject: subject@,
            body: if html {
                Body::Html(content@)
            } else {
                Body::Text(content@)
            },
            attachments: optional_views(*attachments),
        }).json(),
{
    let mut out = String::new();
    out.push('{');
    write_key(&mut out, true, "from");
    write_quoted(&mut out, from);
    write_key(&mut out, false, "to");
    write_strings(&mut out, to);
    write_key(&mut out, false, "subject");
    write_quoted(&mut out, subject);
    if html {
        write_key(&mut out, false, "html");
    } else {
        write_key(&mut out, false, "text");
    }
    write_quoted(&mut out, content);
    write_key(&mut out, false, "attachments");
    write_attachments(&mut out, attachments);
    out.push('}');
    proof {
        let message = Message {
            from: from@,
            to: views(to@),
            subject: subject@,
            body: if html {
                Body::Html(content@)
            } else {
                Body::Text(content@)
            },
            attachments: optional_views(*attachments),
        };
        lemma_object_of_five(message.members());
    }
    out
}

impl Mail for MailText<'_> {
    fn to_json(&self) -> (text: String) {
        body_json(self.from, &self.to, self.subject, false, self.text, &self.attachments)
    }
}

impl Mail for MailHtml<'_> {
    fn to_json(&self) -> (text: String) {
        body_json(self.from, &self.to, self.subject, true, self.html, &self.attachments)
    }
}

/// Every request body names its members in one order: `from`, `to`,
/// `subject`, then `text` or `html`, then `attachments`; and its text is
/// those five members, each a quoted name, a colon and a value, between
/// braces and with commas between them.
pub proof fn lemma_member_order(m: Message)
    ensures
        keys(m.members()) == seq!["from"@, "to"@, "subject"@, m.body.key(), "attachments"@],
        m.json() == seq!['{'] + (quoted("from"@) + seq![':'] + quoted(m.from)) + seq![','] + (
        quoted("to"@) + seq![':'] + array(strings(m.to))) + seq![','] + (quoted("subject"@)
            + seq![':'] + quoted(m.subject)) + seq![','] + (quoted(m.body.key()) + seq![':']
            + quoted(m.body.content())) + seq![','] + (quoted("attachments"@) + seq![':']
            + attachments_json(m.attachments)) + seq!['}'],
{
    lemma_object_of_five(m.members());
}

/// The `attachments` member is `null` exactly when the message has no list
/// of attachments. A list without items is written as the empty array.
pub proof fn lemma_attachments_null_iff_absent(m: Message)
    ensures
        m.members()[4].key == "attachments"@,
        m.members()[4].value == "null"@ <==> m.attachments is None,
        m.attachments == Some(Seq::<AttachmentView>::empty()) ==> m.members()[4].value == "[]"@,
{
    reveal_strlit("null");
    reveal_strlit("[]");
    match m.attachments {
        Some(list) => {
            let text = array(attachment_texts(list));
            assert(text[0] == '[');
            assert("null"@[0] == 'n');
            if list.len() == 0 {
                assert(text == "[]"@);
            }
        },
        None => {},
    }
}

/// Of the names `text` and `html`, every request body holds exactly one, in
/// one member: `text` for a plain-text message and `html` for an HTML one.
pub proof fn lemma_one_body_member(m: Message)
    ensures
        keys(m.members()).contains("text"@) <==> m.body is Text,
        keys(m.members()).contains("html"@) <==> m.body is Html,
        keys(m.members()).contains("text"@) != keys(m.members()).contains("html"@),
        forall|i: int|
            0 <= i < 5 ==> ((#[trigger] keys(m.members())[i] == "text"@ || keys(m.members())[i]
                == "html"@) <==> i == 3),
{
    reveal_strlit("from");
    reveal_strlit("to");
    reveal_strlit("subject");
    reveal_strlit("text");
    reveal_strlit("html");
    reveal_strlit("attachments");
    let k = keys(m.members());
    assert(k == seq!["from"@, "to"@, "subject"@, m.body.key(), "attachments"@]);
    assert("from"@[0] == 'f' && "text"@[0] == 't' && "html"@[0] == 'h');
    assert("to"@.len() == 2 && "subject"@.len() == 7 && "attachments"@.len() == 11);
    assert("text"@.len() == 4 && "html"@.len() == 4);
    assert(k[3] == m.body.key());
    assert forall|name: Seq<char>| name == "text"@ || name == "html"@ implies (k.contains(name)
        <==> m.body.key() == name) by {
        if k.contains(name) {
            let i = choose|i: int| 0 <= i < k.len() && k[i] == name;
            assert(i == 3);
        }
    }
}

} // verus!
