use vstd::prelude::*;

verus! {

/// A 128-bit identifier, in the order in which its text shows it: the first
/// hexadecimal digit stands for the highest four bits.
#[derive(Clone, Copy, Debug, PartialEq, Eq, PartialOrd, Ord, Hash, Structural)]
pub struct Uid {
    pub bits: u128,
}

pub type RunId = Uid;
pub type SessionId = Uid;
pub type ProjectId = Uid;
pub type RoleId = Uid;
pub type ModelId = Uid;
pub type ModelProviderId = Uid;
pub type AccountId = Uid;
pub type AgentInstanceId = Uid;
pub type AgentProviderId = Uid;
pub type CredentialReferenceId = Uid;
pub type ApprovalRequestId = Uid;
pub type GraphRunId = Uid;
pub type GraphNodeId = Uid;
pub type DecisionBaselineId = Uid;
pub type MeetingId = Uid;
pub type DocumentId = Uid;
pub type DocumentVersionId = Uid;
pub type KnowledgeDeliveryId = Uid;
pub type CostRecordId = Uid;

/// The lower-case hexadecimal digit `d`, for `d` below sixteen.
pub open spec fn hex_digit(d: nat) -> char {
    if d < 10 {
        (('0' as u32) + d) as char
    } else {
        (('a' as u32) + (d - 10)) as char
    }
}

pub open spec fn sixteen_to(k: nat) -> nat
    decreases k,
{
    if k == 0 {
        1
    } else {
        16 * sixteen_to((k - 1) as nat)
    }
}

/// The four bits of `bits` that the `k`-th of its 32 digits shows.
pub open spec fn nibble(bits: u128, k: int) -> nat {
    (bits as nat / sixteen_to((31 - k) as nat)) % 16
}

/// The canonical text of an identifier: 32 digits in groups of 8, 4, 4, 4 and
/// 12, with a hyphen between two groups.
pub open spec fn hyphenated(bits: u128) -> Seq<char> {
    Seq::new(
        36,
        |i: int|
            if i == 8 || i == 13 || i == 18 || i == 23 {
                '-'
            } else if i < 8 {
                hex_digit(nibble(bits, i))
            } else if i < 13 {
                hex_digit(nibble(bits, i - 1))
            } else if i < 18 {
                hex_digit(nibble(bits, i - 2))
            } else if i < 23 {
                hex_digit(nibble(bits, i - 3))
            } else {
                hex_digit(nibble(bits, i - 4))
            },
    )
}

/// What `uuid::Uuid::parse_str` reads out of a text: the identifier, or nothing
/// where the text is in none of the forms that it knows.
pub uninterp spec fn parsed_uuid(text: Seq<char>) -> Option<u128>;

/// Calls `uuid::Uuid::new_v4`. The result is random; its version digit is 4
/// and its variant digit is one of 8, 9, a and b.
#[verifier::external_body]
fn random_uuid() -> (r: u128)
    ensures
        nibble(r, 12) == 4,
        8 <= nibble(r, 16) <= 11,
{
    uuid::Uuid::new_v4().as_u128()
}

/// Calls the `Display` of `uuid::Uuid`, which writes the hyphenated form in
/// lower case.
#[verifier::external_body]
fn uuid_text(bits: u128) -> (r: String)
    ensures
        r@ == hyphenated(bits),
{
    uuid::Uuid::from_u128(bits).to_string()
}

/// Calls `uuid::Uuid::parse_str`. The result depends on the text alone, and a
/// hyphenated form is read back as the identifier that it shows.
#[verifier::external_body]
fn uuid_parse(text: &str) -> (r: Option<u128>)
    ensures
        r == parsed_uuid(text@),
        forall|bits: u128| text@ == #[trigger] hyphenated(bits) ==> r == Some(bits),
{
    uuid::Uuid::parse_str(text).ok().map(|id| id.as_u128())
}

/// The identifier that a text names, where it names one.
pub open spec fn parsed_uid(text: Seq<char>) -> Option<Uid> {
    match parsed_uuid(text) {
        Some(bits) => Some(Uid { bits }),
        None => None,
    }
}

impl Uid {
    /// The canonical text of this identifier.
    pub open spec fn canonical(self) -> Seq<char> {
        hyphenated(self.bits)
    }

    /// A fresh random identifier. Its text shows version 4 and the standard
    /// variant.
    pub fn new() -> (r: Self)
        ensures
            nibble(r.bits, 12) == 4,
            8 <= nibble(r.bits, 16) <= 11,
    {
        Uid { bits: random_uuid() }
    }

    pub fn text(&self) -> (r: String)
        ensures
            r@ == self.canonical(),
    {
        uuid_text(self.bits)
    }

    /// Reads an identifier. The canonical text of an identifier is read back as
    /// that identifier.
    pub fn parse(text: &str) -> (r: Option<Self>)
        ensures
            r == parsed_uid(text@),
            forall|id: Uid| text@ == #[trigger] id.canonical() ==> r == Some(id),
    {
        match uuid_parse(text) {
            Some(bits) => Some(Uid { bits }),
            None => None,
        }
    }
}

/// A row or an entity that is found by its identifier.
pub trait Keyed {
    spec fn key(&self) -> Uid;

    fn id(&self) -> (r: Uid)
        ensures
            r == self.key(),
    ;
}

/// The index of the first item at or after `from` whose key is `key`.
pub open spec fn find_from<T: Keyed>(items: Seq<T>, key: Uid, from: int) -> Option<int>
    decreases items.len() - from,
{
    if from < 0 || from >= items.len() {
        None
    } else if items[from].key() == key {
        Some(from)
    } else {
        find_from(items, key, from + 1)
    }
}

/// The index of the first item whose key is `key`.
pub open spec fn find<T: Keyed>(items: Seq<T>, key: Uid) -> Option<int> {
    find_from(items, key, 0)
}

pub fn position<T: Keyed>(items: &Vec<T>, key: Uid) -> (r: Option<usize>)
    ensures
        match r {
            Some(i) => find(items@, key) == Some(i as int) && i < items@.len()
                && items@[i as int].key() == key,
            None => find(items@, key) is None,
        },
{
    let mut i: usize = 0;
    while i < items.len()
        invariant
            i <= items@.len(),
            find(items@, key) == find_from(items@, key, i as int),
        decreases items@.len() - i,
    {
        if items[i].id() == key {
            return Some(i);
        }
        i += 1;
    }
    None
}

/// What is found stands in the sequence, has the key, and is the first to have
/// it; what is not found stands nowhere in it.
pub proof fn lemma_find<T: Keyed>(items: Seq<T>, key: Uid)
    ensures
        match find(items, key) {
            Some(i) => 0 <= i < items.len() && items[i].key() == key && forall|j: int|
                0 <= j < i ==> (#[trigger] items[j]).key() != key,
            None => forall|j: int| 0 <= j < items.len() ==> (#[trigger] items[j]).key() != key,
        },
{
    lemma_find_from(items, key, 0);
}

proof fn lemma_find_from<T: Keyed>(items: Seq<T>, key: Uid, from: int)
    requires
        from >= 0,
    ensures
        match find_from(items, key, from) {
            Some(i) => from <= i < items.len() && items[i].key() == key && forall|j: int|
                from <= j < i ==> (#[trigger] items[j]).key() != key,
            None => forall|j: int| from <= j < items.len() ==> (#[trigger] items[j]).key() != key,
        },
    decreases items.len() - from,
{
    if from < items.len() && items[from].key() != key {
        lemma_find_from(items, key, from + 1);
    }
}

} // verus!
