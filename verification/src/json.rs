use crate::text::{decimal, decimal_text};
use crate::uid::{hex_digit, Uid};
use vstd::prelude::*;
use vstd::string::*;

verus! {

/// A character as a JSON string shows it: quotation marks, backslashes and
/// control characters are escaped, everything else stands for itself.
pub open spec fn escaped(c: char) -> Seq<char> {
    if c == '"' || c == '\\' {
        seq!['\\', c]
    } else if c == '\u{8}' {
        seq!['\\', 'b']
    } else if c == '\t' {
        seq!['\\', 't']
    } else if c == '\n' {
        seq!['\\', 'n']
    } else if c == '\u{c}' {
        seq!['\\', 'f']
    } else if c == '\r' {
        seq!['\\', 'r']
    } else if (c as u32) < 0x20 {
        seq!['\\', 'u', '0', '0', hex_digit((c as u32 / 16) as nat), hex_digit((c as u32 % 16) as nat)]
    } else {
        seq![c]
    }
}

/// A text between the quotation marks of a JSON string.
#[verifier::opaque]
pub open spec fn escaped_text(text: Seq<char>) -> Seq<char>
    decreases text.len(),
{
    if text.len() == 0 {
        Seq::empty()
    } else {
        escaped_text(text.drop_last()) + escaped(text.last())
    }
}

/// The JSON string that denotes a text.
pub open spec fn json_string(text: Seq<char>) -> Seq<char> {
    seq!['"'] + escaped_text(text) + seq!['"']
}

/// Calls `serde_json::to_string` on a text, which cannot fail on one. It writes
/// the text between quotation marks, each character escaped as JSON has it,
/// with the short form of an escape where there is one.
#[verifier::external_body]
pub(crate) fn json_quote(text: &str) -> (r: String)
    ensures
        r@ == json_string(text@),
{
    serde_json::to_string(text).unwrap_or_default()
}

/// A JSON string stands on one line, whatever it denotes.
pub proof fn law_json_string_has_no_line_feed(text: Seq<char>)
    ensures
        !json_string(text).contains('\n'),
{
    lemma_escaped_text_has_no_line_feed(text);
}

proof fn lemma_escaped_text_has_no_line_feed(text: Seq<char>)
    ensures
        !escaped_text(text).contains('\n'),
    decreases text.len(),
{
    reveal_with_fuel(escaped_text, 1);
    if text.len() > 0 {
        lemma_escaped_text_has_no_line_feed(text.drop_last());
        assert(!escaped(text.last()).contains('\n'));
    }
}

/// One member of a JSON object, with a key that needs no escape.
pub open spec fn member(field: (Seq<char>, Seq<char>)) -> Seq<char> {
    "\""@ + field.0 + "\":"@ + field.1
}

/// The members of a JSON object, with a comma between two of them.
pub open spec fn members(fields: Seq<(Seq<char>, Seq<char>)>) -> Seq<char>
    decreases fields.len(),
{
    if fields.len() == 0 {
        Seq::empty()
    } else if fields.len() == 1 {
        member(fields[0])
    } else {
        members(fields.drop_last()) + ","@ + member(fields.last())
    }
}

/// The compact text of a JSON object; each field is a key and the JSON text of
/// its value.
pub open spec fn object(fields: Seq<(Seq<char>, Seq<char>)>) -> Seq<char> {
    "{"@ + members(fields) + "}"@
}

/// No fields yet.
pub open spec fn fields() -> Seq<(Seq<char>, Seq<char>)> {
    Seq::empty()
}

pub open spec fn json_uid(id: Uid) -> Seq<char> {
    json_string(id.canonical())
}

pub open spec fn json_uid_option(id: Option<Uid>) -> Seq<char> {
    match id {
        Some(id) => json_uid(id),
        None => "null"@,
    }
}

/// A JSON object under construction. Fields are added in the order in which
/// they are to stand in the text.
pub struct Payload {
    text: String,
    fields: Ghost<Seq<(Seq<char>, Seq<char>)>>,
}

impl View for Payload {
    type V = Seq<(Seq<char>, Seq<char>)>;

    closed spec fn view(&self) -> Seq<(Seq<char>, Seq<char>)> {
        self.fields@
    }
}

impl Payload {
    #[verifier::type_invariant]
    closed spec fn consistent(self) -> bool {
        self.text@ == members(self.fields@)
    }

    pub fn new() -> (r: Self)
        ensures
            r@ == fields(),
    {
        Payload { text: String::new(), fields: Ghost(Seq::empty()) }
    }

    /// Adds a field whose value is already JSON text.
    pub fn raw(self, key: &str, value: &str) -> (r: Self)
        ensures
            r@ == self@.push((key@, value@)),
    {
        proof {
            use_type_invariant(&self);
        }
        let ghost before = self.fields@;
        let ghost field = (key@, value@);
        let first = self.text.as_str().is_empty();
        let mut text = self.text;
        proof {
            if before.len() > 0 {
                lemma_members_nonempty(before);
            }
            reveal_strlit("");
        }
        if !first {
            text.append(",");
        }
        text.append("\"");
        text.append(key);
        text.append("\":");
        text.append(value);
        proof {
            let after = before.push(field);
            assert(after.drop_last() =~= before);
            if before.len() == 0 {
                assert(text@ =~= member(field));
            } else {
                assert(text@ =~= members(before) + ","@ + member(field));
            }
        }
        Payload { text, fields: Ghost(before.push(field)) }
    }

    pub fn number(self, key: &str, value: u64) -> (r: Self)
        ensures
            r@ == self@.push((key@, decimal(value as nat))),
    {
        self.raw(key, decimal_text(value).as_str())
    }

    pub fn string(self, key: &str, value: &str) -> (r: Self)
        ensures
            r@ == self@.push((key@, json_string(value@))),
    {
        self.raw(key, json_quote(value).as_str())
    }

    pub fn uid(self, key: &str, value: Uid) -> (r: Self)
        ensures
            r@ == self@.push((key@, json_uid(value))),
    {
        self.string(key, value.text().as_str())
    }

    pub fn uid_option(self, key: &str, value: Option<Uid>) -> (r: Self)
        ensures
            r@ == self@.push((key@, json_uid_option(value))),
    {
        match value {
            Some(id) => self.uid(key, id),
            None => self.raw(key, "null"),
        }
    }

    pub fn finish(self) -> (r: String)
        ensures
            r@ == object(self@),
    {
        proof {
            use_type_invariant(&self);
        }
        let mut text = "{".to_owned();
        text.append(self.text.as_str());
        text.append("}");
        text
    }
}

proof fn lemma_members_nonempty(fields: Seq<(Seq<char>, Seq<char>)>)
    requires
        fields.len() > 0,
    ensures
        members(fields).len() > 0,
{
    reveal_strlit("\"");
    reveal_strlit("\":");
    reveal_strlit(",");
}

} // verus!
