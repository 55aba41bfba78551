//! Texts, numbers and identifiers as they are written down, and what errors say.
use crate::digest::{hex, hex_text, push_bytes, sha256_text};
use crate::error::{ApprovalError, StoreError};
use crate::graph::GraphError;
use crate::json::{escaped_text, Payload};
use crate::listing::{law_listing_is_in_order, list_graphs, listed, rows_of};
use crate::m3::{
    m3_is_unconfigured, unknown_cost, CostEvidence, EvidenceClass, M3Catalog, PetProfile,
};
use crate::migrations::apply_migrations;
use crate::store::GraphRow;
use crate::text::{decimal, decimal_text, has_char, is_blank, same_text};
use crate::uid::{hex_digit, position, Keyed, Uid};
use vstd::prelude::*;
use vstd::utf8::encode_utf8;

verus! {

/// The number that a row of decimal digits shows.
pub open spec fn shown_number(text: Seq<char>) -> int
    decreases text.len(),
{
    if text.len() == 0 {
        0
    } else {
        10 * shown_number(text.drop_last()) + (text.last() as u32 - '0' as u32)
    }
}

/// A number is written in decimal digits that show it, without leading zeros.
pub proof fn law_decimals_show_their_number(n: u64, r: String)
    requires
        call_ensures(decimal_text, (n,), r),
    ensures
        shown_number(r@) == n,
        r@.len() > 0,
        forall|i: int| 0 <= i < r@.len() ==> '0' <= #[trigger] r@[i] <= '9',
        r@.len() > 1 ==> r@[0] != '0',
{
    lemma_decimal(n as nat);
}

proof fn lemma_decimal(n: nat)
    ensures
        shown_number(decimal(n)) == n,
        decimal(n).len() > 0,
        forall|i: int| 0 <= i < decimal(n).len() ==> '0' <= #[trigger] decimal(n)[i] <= '9',
        decimal(n).len() > 1 ==> decimal(n)[0] != '0',
        n > 0 ==> decimal(n)[0] != '0',
    decreases n,
{
    if n < 10 {
        assert(decimal(n).drop_last() == Seq::<char>::empty());
        assert(shown_number(Seq::<char>::empty()) == 0);
        assert(crate::text::digit(n) as u32 == '0' as u32 + n);
    } else {
        lemma_decimal(n / 10);
        assert(decimal(n).drop_last() == decimal(n / 10));
        assert(crate::text::digit(n % 10) as u32 == '0' as u32 + n % 10);
        assert(decimal(n)[0] == decimal(n / 10)[0]);
    }
}

/// A text is blank if nothing in it can be seen; a printable character of ASCII
/// can.
pub proof fn law_blank_texts_show_nothing(s: &str, r: bool)
    requires
        call_ensures(is_blank, (s,), r),
    ensures
        s@.len() == 0 ==> r,
        (forall|i: int|
            0 <= i < s@.len() ==> #[trigger] s@[i] == ' ' || s@[i] == '\t' || s@[i] == '\n'
                || s@[i] == '\r') ==> r,
        (exists|i: int| 0 <= i < s@.len() && '!' <= #[trigger] s@[i] <= '~') ==> !r,
{
    if exists|i: int| 0 <= i < s@.len() && '!' <= #[trigger] s@[i] <= '~' {
        let i = choose|i: int| 0 <= i < s@.len() && '!' <= #[trigger] s@[i] <= '~';
        assert(!crate::text::is_white(s@[i]));
    }
}

/// A text has a character if it stands in it somewhere, and texts are the same
/// if all their characters are.
pub proof fn law_texts_are_compared_by_characters(
    a: &str,
    b: &str,
    c: char,
    has: bool,
    same: bool,
)
    requires
        call_ensures(has_char, (a, c), has),
        call_ensures(same_text, (a, b), same),
    ensures
        has <==> a@.contains(c),
        same <==> a@ == b@,
{
}

/// An identifier is written in 36 characters with four hyphens, and reads back
/// as itself.
pub proof fn law_identifiers_read_back(id: &Uid, text: String, read: &str, r: Option<Uid>)
    requires
        call_ensures(Uid::text, (id,), text),
        read@ == text@,
        call_ensures(Uid::parse, (read,), r),
    ensures
        r == Some(*id),
        text@.len() == 36,
        text@[8] == '-',
        text@[13] == '-',
        text@[18] == '-',
        text@[23] == '-',
        text@[35] == hex_digit((id.bits % 16) as nat),
{
    assert(read@ == id.canonical());
    assert(crate::uid::sixteen_to(0) == 1);
    assert(crate::uid::nibble(id.bits, 31) == (id.bits as nat / 1) % 16);
    assert(id.bits as nat / 1 == id.bits as nat);
    assert(text@[35] == hex_digit(crate::uid::nibble(id.bits, 35 - 4)));
}

/// What is found under a key is the first item that has it.
pub proof fn law_first_of_a_key_is_found<T: Keyed>(items: &Vec<T>, key: Uid, r: Option<usize>)
    requires
        call_ensures(position::<T>, (items, key), r),
    ensures
        r is Some ==> r->0 < items@.len() && items@[r->0 as int].key() == key && forall|j: int|
            0 <= j < r->0 ==> (#[trigger] items@[j]).key() != key,
        r is None ==> forall|j: int| 0 <= j < items@.len() ==> (#[trigger] items@[j]).key() != key,
{
    crate::uid::lemma_find(items@, key);
}

/// Bytes are written as two hexadecimal digits each, the higher first, as many
/// as were asked for.
pub proof fn law_bytes_are_written_as_two_digits(bytes: &Vec<u8>, limit: usize, r: String, i: int)
    requires
        call_ensures(hex_text, (bytes, limit), r),
    ensures
        limit <= bytes@.len() ==> r@.len() == 2 * limit,
        limit > bytes@.len() ==> r@.len() == 2 * bytes@.len(),
        0 <= i < limit && i < bytes@.len() ==> r@[2 * i] == hex_digit((bytes@[i] / 16) as nat)
            && r@[2 * i + 1] == hex_digit((bytes@[i] % 16) as nat),
{
    let part = bytes@.take(
        if limit < bytes@.len() {
            limit as int
        } else {
            bytes@.len() as int
        },
    );
    crate::digest::lemma_hex_len(part);
    if 0 <= i < part.len() {
        lemma_hex_at(part, i);
    }
}

proof fn lemma_hex_at(bytes: Seq<u8>, i: int)
    requires
        0 <= i < bytes.len(),
    ensures
        hex(bytes).len() == 2 * bytes.len(),
        hex(bytes)[2 * i] == hex_digit((bytes[i] / 16) as nat),
        hex(bytes)[2 * i + 1] == hex_digit((bytes[i] % 16) as nat),
    decreases bytes.len(),
{
    crate::digest::lemma_hex_len(bytes);
    crate::digest::lemma_hex_len(bytes.drop_last());
    if i < bytes.len() - 1 {
        lemma_hex_at(bytes.drop_last(), i);
    }
}

/// A digest is written as the 64 digits of its 32 bytes.
pub proof fn law_digests_are_written_in_hex(bytes: &[u8], r: String)
    requires
        call_ensures(sha256_text, (bytes,), r),
    ensures
        r@.len() == 64,
        r@ == hex(crate::digest::sha256(bytes@)),
{
}

/// Bytes are added at the end, as they are.
pub proof fn law_bytes_are_added_at_the_end(out: &mut Vec<u8>, bytes: &[u8])
    requires
        call_ensures(push_bytes, (out, bytes), ()),
    ensures
        final(out)@ == old(out)@ + bytes@,
{
}

/// Nothing in this text has to be escaped.
pub open spec fn plain(text: Seq<char>) -> bool {
    forall|i: int|
        0 <= i < text.len() ==> #[trigger] text[i] != '"' && text[i] != '\\' && (text[i] as u32)
            >= 0x20
}

proof fn lemma_plain(text: Seq<char>)
    requires
        plain(text),
    ensures
        escaped_text(text) == text,
    decreases text.len(),
{
    reveal(escaped_text);
    if text.len() > 0 {
        assert(plain(text.drop_last())) by {
            assert forall|i: int| 0 <= i < text.drop_last().len() implies #[trigger] text.drop_last()[i]
                != '"' && text.drop_last()[i] != '\\' && (text.drop_last()[i] as u32) >= 0x20 by {
                assert(text[i] == text.drop_last()[i]);
            }
        }
        lemma_plain(text.drop_last());
        let c = text.last();
        assert(text[text.len() - 1] == c);
        assert(crate::json::escaped(c) == seq![c]);
        assert(text.drop_last() + seq![c] == text);
    } else {
        assert(text =~= Seq::empty());
    }
}

/// An object of a text and a number is written as its members in their order; a
/// text that needs no escapes stands in it as it is.
pub proof fn law_objects_are_written_member_by_member(
    empty: Payload,
    key: &str,
    value: &str,
    first: Payload,
    count: &str,
    n: u64,
    second: Payload,
    r: String,
)
    requires
        call_ensures(Payload::new, (), empty),
        call_ensures(Payload::string, (empty, key, value), first),
        call_ensures(Payload::number, (first, count, n), second),
        call_ensures(Payload::finish, (second,), r),
        plain(value@),
    ensures
        r@ == "{\""@ + key@ + "\":\""@ + value@ + "\",\""@ + count@ + "\":"@ + decimal(n as nat)
            + "}"@,
{
    lemma_plain(value@);
    let quoted = seq!['"'] + value@ + seq!['"'];
    assert(crate::json::json_string(value@) == quoted);
    let one = seq![(key@, quoted)];
    let two = one.push((count@, decimal(n as nat)));
    assert(second@ == two);
    assert(two.drop_last() == one);
    reveal_with_fuel(crate::json::members, 3);
    assert(crate::json::members(one) == crate::json::member((key@, quoted)));
    assert(crate::json::members(two) == crate::json::members(one) + ","@ + crate::json::member(
        (count@, decimal(n as nat)),
    ));
    reveal_strlit("{");
    reveal_strlit("}");
    reveal_strlit("\"");
    reveal_strlit("\":");
    reveal_strlit(",");
    reveal_strlit("{\"");
    reveal_strlit("\":\"");
    reveal_strlit("\",\"");
    assert(r@ == "{"@ + (("\""@ + key@ + "\":"@ + quoted) + ","@ + ("\""@ + count@ + "\":"@
        + decimal(n as nat))) + "}"@);
    assert("{"@ + "\""@ =~= "{\""@);
    assert("\":"@ + seq!['"'] =~= "\":\""@);
    assert(seq!['"'] + ","@ + "\""@ =~= "\",\""@);
    lemma_regroup(key@, value@, count@, decimal(n as nat));
}

proof fn lemma_regroup(key: Seq<char>, value: Seq<char>, count: Seq<char>, n: Seq<char>)
    ensures
        "{"@ + (("\""@ + key + "\":"@ + (seq!['"'] + value + seq!['"'])) + ","@ + ("\""@ + count
            + "\":"@ + n)) + "}"@ == ("{"@ + "\""@) + key + ("\":"@ + seq!['"']) + value + (seq!['"']
            + ","@ + "\""@) + count + "\":"@ + n + "}"@,
{
    assert("{"@ + (("\""@ + key + "\":"@ + (seq!['"'] + value + seq!['"'])) + ","@ + ("\""@ + count
        + "\":"@ + n)) + "}"@ =~= ("{"@ + "\""@) + key + ("\":"@ + seq!['"']) + value + (seq!['"']
        + ","@ + "\""@) + count + "\":"@ + n + "}"@);
}

/// An identifier stands in an object as its text, and the lack of one as null.
pub proof fn law_objects_name_identifiers(
    empty: Payload,
    key: &str,
    id: Uid,
    one: Payload,
    optional: Payload,
    absent: Payload,
    text: String,
    quoted: &str,
    same: Payload,
    null: &str,
    raw: Payload,
)
    requires
        call_ensures(Payload::new, (), empty),
        call_ensures(Payload::uid, (empty, key, id), one),
        call_ensures(Payload::uid_option, (empty, key, Some(id)), optional),
        call_ensures(Payload::uid_option, (empty, key, None), absent),
        call_ensures(Uid::text, (&id,), text),
        quoted@ == text@,
        call_ensures(Payload::string, (empty, key, quoted), same),
        null@ == "null"@,
        call_ensures(Payload::raw, (empty, key, null), raw),
    ensures
        one@ == same@,
        optional@ == same@,
        absent@ == raw@,
{
}

/// A listing holds the rows that there are, each once for each time it is there,
/// and those of one time by their identifiers.
pub proof fn law_listing_is_by_time_and_identifier(rows: &Vec<GraphRow>, r: Vec<&GraphRow>)
    requires
        call_ensures(list_graphs, (rows,), r),
    ensures
        r@.len() == rows@.len(),
        rows_of(r@).to_multiset() == rows@.to_multiset(),
        forall|i: int, j: int|
            0 <= i < j < r@.len() && (#[trigger] r@[i]).updated_at@ == (
            #[trigger] r@[j]).updated_at@ ==> r@[i].execution_id.bits <= r@[j].execution_id.bits,
{
    law_listing_is_in_order(rows@);
    assert(r@.len() == rows_of(r@).len());
    assert forall|i: int, j: int|
        0 <= i < j < r@.len() && (#[trigger] r@[i]).updated_at@ == (#[trigger] r@[j]).updated_at@
            implies r@[i].execution_id.bits <= r@[j].execution_id.bits by {
        assert(rows_of(r@)[i] == *r@[i]);
        assert(rows_of(r@)[j] == *r@[j]);
        assert(!crate::listing::listed_before(listed(rows@)[j], listed(rows@)[i]));
    }
}

/// A text that comes first byte by byte comes first in a listing.
pub proof fn law_earlier_texts_are_listed_first(a: Seq<u8>, b: Seq<u8>, k: int)
    requires
        0 <= k < a.len(),
        k < b.len(),
        forall|i: int| 0 <= i < k ==> #[trigger] a[i] == b[i],
        a[k] < b[k],
    ensures
        crate::listing::bytes_before(a, b),
        !crate::listing::bytes_before(b, a),
    decreases k,
{
    if k > 0 {
        assert(a[0] == b[0]);
        assert forall|i: int| 0 <= i < k - 1 implies #[trigger] a.skip(1)[i] == b.skip(1)[i] by {
            assert(a[i + 1] == b[i + 1]);
        }
        law_earlier_texts_are_listed_first(a.skip(1), b.skip(1), k - 1);
    }
}

/// An error is answered by its class: a conflict with the state, something that
/// is not there, something invalid, a controller that refuses, or a fault of the
/// daemon.
pub proof fn law_errors_are_answered_by_class(error: &StoreError, r: u16)
    requires
        call_ensures(StoreError::status, (error,), r),
    ensures
        error is RevisionConflict || error is InvalidLifecycle || error is ApprovalConflict
            || error is CredentialGrantRejected || error is GraphConflict || error is InvalidRunState
            || error is ProviderRunsActive <==> r == 409,
        error is ApprovalNotFound || error is RunNotFound || error is GraphNotFound
            || error is CredentialGrantNotFound <==> r == 404,
        error is InvalidCatalog || error is InvalidApproval || error is InvalidGraph
            || error is InvalidM3 || error is InvalidMvp || error is InvalidDocument
            || error is InvalidCost || error is Serialization <==> r == 400,
        error is RunControlRejected <==> r == 503,
        error is Database || error is UnsupportedSchemaVersion || error is Poisoned
            || error is RevisionOverflow <==> r == 500,
{
}

/// What each error says.
pub proof fn law_errors_say_what_is_wrong(error: &StoreError, r: String)
    requires
        call_ensures(StoreError::message, (error,), r),
    ensures
        error is Database ==> r@ == "database error: "@ + error->Database_0@,
        error is RevisionConflict ==> r@ == "state revision conflict: expected "@ + decimal(
            error->RevisionConflict_expected as nat,
        ) + ", actual "@ + decimal(error->RevisionConflict_actual as nat),
        error is UnsupportedSchemaVersion ==> r@ == "database schema version "@ + decimal(
            error->UnsupportedSchemaVersion_actual as nat,
        ) + " is newer than supported version "@ + decimal(
            error->UnsupportedSchemaVersion_supported as nat,
        ),
        error is InvalidLifecycle ==> r@ == "invalid daemon lifecycle: expected "@
            + error->InvalidLifecycle_expected@ + ", actual "@ + error->InvalidLifecycle_actual@,
        error is Poisoned ==> r@ == "store mutex was poisoned"@,
        error is InvalidCatalog ==> r@ == "identity catalog is invalid: "@
            + error->InvalidCatalog_0.message@,
        error is Serialization ==> r@ == "identity catalog serialization failed: "@
            + error->Serialization_0@,
        error is ApprovalNotFound ==> r@ == "approval request was not found"@,
        error is ApprovalConflict ==> r@
            == "approval request already exists or has already been decided"@,
        error is CredentialGrantNotFound ==> r@ == "credential grant was not found"@,
        error is CredentialGrantRejected ==> r@
            == "credential grant is not usable for this request"@,
        error is RevisionOverflow ==> r@ == "state revision overflow"@,
        error is RunNotFound ==> r@ == "run was not found"@,
        error is InvalidRunState ==> r@ == "run cannot be cancelled from state "@
            + error->InvalidRunState_0@,
        error is RunControlRejected ==> r@ == "provider run controller rejected cancellation"@,
        error is ProviderRunsActive ==> r@ == "provider runs are still active"@,
        error is InvalidM3 ==> r@ == "M3 catalog is invalid: "@ + error->InvalidM3_0@,
        error is InvalidMvp ==> r@ == "MVP workflow is invalid: "@ + error->InvalidMvp_0@,
        error is InvalidDocument ==> r@ == "document workflow is invalid: "@
            + error->InvalidDocument_0@,
        error is InvalidCost ==> r@ == "cost evidence is invalid: "@ + error->InvalidCost_0@,
        error is GraphNotFound ==> r@ == "graph execution was not found"@,
        error is GraphConflict ==> r@ == "graph execution already exists"@,
{
}

/// An error that was found elsewhere is quoted after what it concerns.
pub proof fn law_errors_quote_their_cause(
    error: &StoreError,
    r: String,
    graph: &GraphError,
    graph_says: String,
    approval: &ApprovalError,
    approval_says: String,
)
    requires
        call_ensures(StoreError::message, (error,), r),
        call_ensures(GraphError::message, (graph,), graph_says),
        call_ensures(ApprovalError::message, (approval,), approval_says),
    ensures
        *error == StoreError::InvalidGraph(*graph) ==> r@ == "graph execution is invalid: "@
            + graph_says@,
        *error == StoreError::InvalidApproval(*approval) ==> r@ == "approval is invalid: "@
            + approval_says@,
        *graph == GraphError::InvalidExecution ==> graph_says@ == "invalid execution"@,
        *graph == GraphError::InvalidOutput ==> graph_says@ == "invalid output"@,
        graph is Other ==> graph_says@ == graph->Other_0@,
        *approval == ApprovalError::HashMismatch ==> approval_says@ == "hash mismatch"@,
        *approval == ApprovalError::MissingReference ==> approval_says@ == "missing reference"@,
        *approval == ApprovalError::Expired ==> approval_says@ == "expired"@,
        approval is Other ==> approval_says@ == approval->Other_0@,
{
}

/// A work catalog is unconfigured only while nothing but one built-in pet is in
/// it, and an empty one is.
pub proof fn law_unconfigured_catalogs_hold_no_work(
    catalog: &M3Catalog,
    builtin: &PetProfile,
    r: bool,
)
    requires
        call_ensures(m3_is_unconfigured, (catalog, builtin), r),
    ensures
        r ==> catalog.office.pet_assignments@.len() == 0 && catalog.office.rooms@.len() == 0
            && catalog.meetings.meetings@.len() == 0 && catalog.meetings.decision_baselines@.len()
            == 0 && catalog.deliverables.documents@.len() == 0
            && catalog.deliverables.knowledge_deliveries@.len() == 0
            && catalog.deliverables.costs@.len() == 0 && catalog.office.pet_profiles@.len() <= 1,
        r && catalog.office.pet_profiles@.len() == 1 ==> catalog.office.pet_profiles@[0].metadata.id
            == builtin.metadata.id && catalog.office.pet_profiles@[0].rest@ == builtin.rest@,
        (catalog.office.pet_assignments@.len() == 0 && catalog.office.rooms@.len() == 0
            && catalog.meetings.meetings@.len() == 0 && catalog.meetings.decision_baselines@.len()
            == 0 && catalog.deliverables.documents@.len() == 0
            && catalog.deliverables.knowledge_deliveries@.len() == 0
            && catalog.deliverables.costs@.len() == 0 && (catalog.office.pet_profiles@.len() == 0
            || catalog.office.pet_profiles@.len() == 1 && catalog.office.pet_profiles@[0]
            == *builtin)) ==> r,
{
    assert(catalog@.pet_profiles == catalog.office.pet_profiles@);
}

/// An unknown cost claims nothing.
pub proof fn law_unknown_costs_claim_nothing(r: CostEvidence)
    requires
        call_ensures(unknown_cost, (), r),
    ensures
        r.evidence_class == EvidenceClass::Unknown,
        r.currency is None,
        r.amount_bits is None,
        r.input_tokens is None,
        r.output_tokens is None,
        r.confidence_bits == 0,
{
}

/// A database is brought up version by version, from the one after its own to
/// the tenth; a newer one is refused.
pub proof fn law_databases_are_brought_up_in_order(current: u32, r: Result<Vec<u32>, StoreError>)
    requires
        call_ensures(apply_migrations, (current,), r),
    ensures
        r is Ok <==> current <= 10,
        r is Ok ==> r->Ok_0@.len() == 10 - current,
        r is Ok ==> forall|i: int|
            0 <= i < r->Ok_0@.len() ==> #[trigger] r->Ok_0@[i] == current + 1 + i,
        r is Err ==> r->Err_0 is UnsupportedSchemaVersion
            && r->Err_0->UnsupportedSchemaVersion_actual == current
            && r->Err_0->UnsupportedSchemaVersion_supported == 10,
{
}

/// A pet of the first release, dated as such, is the built-in one too.
pub proof fn law_first_release_pets_are_built_in(
    catalog: &M3Catalog,
    builtin: &PetProfile,
    r: bool,
)
    requires
        call_ensures(m3_is_unconfigured, (catalog, builtin), r),
        catalog.office.pet_assignments@.len() == 0,
        catalog.office.rooms@.len() == 0,
        catalog.meetings.meetings@.len() == 0,
        catalog.meetings.decision_baselines@.len() == 0,
        catalog.deliverables.documents@.len() == 0,
        catalog.deliverables.knowledge_deliveries@.len() == 0,
        catalog.deliverables.costs@.len() == 0,
        catalog.office.pet_profiles@.len() == 1,
        catalog.office.pet_profiles@[0].rest@ == builtin.rest@,
        catalog.office.pet_profiles@[0].metadata.id == builtin.metadata.id,
        catalog.office.pet_profiles@[0].metadata.revision == builtin.metadata.revision,
        catalog.office.pet_profiles@[0].metadata.provenance == builtin.metadata.provenance,
        catalog.office.pet_profiles@[0].metadata.lifecycle == builtin.metadata.lifecycle,
    ensures
        catalog.office.pet_profiles@[0].metadata.created_at@ == "builtin-v1"@
            && catalog.office.pet_profiles@[0].metadata.updated_at@ == "builtin-v1"@ ==> r,
        r ==> (catalog.office.pet_profiles@[0].metadata.created_at@ == "builtin-v1"@
            && catalog.office.pet_profiles@[0].metadata.updated_at@ == "builtin-v1"@) || (
        catalog.office.pet_profiles@[0].metadata.created_at@ == builtin.metadata.created_at@
            && catalog.office.pet_profiles@[0].metadata.updated_at@
            == builtin.metadata.updated_at@),
{
    assert(catalog@.pet_profiles == catalog.office.pet_profiles@);
}

/// In a listing nothing stands behind what is dated later, byte by byte.
pub proof fn law_listing_is_by_time(rows: &Vec<GraphRow>, r: Vec<&GraphRow>, i: int, j: int, k: int)
    requires
        call_ensures(list_graphs, (rows,), r),
        0 <= i < j < r@.len(),
        0 <= k < encode_utf8(r@[i].updated_at@).len(),
        k < encode_utf8(r@[j].updated_at@).len(),
        forall|x: int|
            0 <= x < k ==> #[trigger] encode_utf8(r@[i].updated_at@)[x] == encode_utf8(
                r@[j].updated_at@,
            )[x],
    ensures
        encode_utf8(r@[i].updated_at@)[k] <= encode_utf8(r@[j].updated_at@)[k],
{
    law_listing_is_in_order(rows@);
    assert(r@.len() == rows_of(r@).len());
    assert(rows_of(r@)[i] == *r@[i]);
    assert(rows_of(r@)[j] == *r@[j]);
    assert(!crate::listing::listed_before(listed(rows@)[j], listed(rows@)[i]));
    let a = encode_utf8(r@[i].updated_at@);
    let b = encode_utf8(r@[j].updated_at@);
    if a[k] > b[k] {
        assert forall|x: int| 0 <= x < k implies #[trigger] b[x] == a[x] by {
            assert(a[x] == b[x]);
        }
        law_earlier_texts_are_listed_first(b, a, k);
    }
}

} // verus!
