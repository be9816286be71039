//! Receipts, app transactions, and reading the payload of a compact JWS.

use vstd::prelude::*;

use crate::error::{outcome, ErrorView, StoreKitError};
use crate::private::{
    base64_standard, decode_base64, decode_base64_urlsafe, spec_decode_base64,
    spec_decode_base64_urlsafe,
};
use crate::text::{concat2, owned};

verus! {

/// The pieces of `s` between the occurrences of `sep`, in order, as `str::split` yields them.
pub open spec fn split_on(s: Seq<char>, sep: char) -> Seq<Seq<char>>
    decreases s.len(),
{
    if s.len() == 0 {
        seq![Seq::<char>::empty()]
    } else {
        let rest = split_on(s.drop_last(), sep);
        if s.last() == sep {
            rest.push(Seq::<char>::empty())
        } else {
            rest.update(rest.len() - 1, rest.last().push(s.last()))
        }
    }
}

/// `split_on` always yields at least one piece.
pub proof fn split_on_is_not_empty(s: Seq<char>, sep: char)
    ensures
        split_on(s, sep).len() >= 1,
    decreases s.len(),
{
    if s.len() > 0 {
        split_on_is_not_empty(s.drop_last(), sep);
    }
}

/// The payload segment of a compact JWS, or the error for a JWS that does not have exactly
/// three segments.
pub open spec fn spec_jws_payload_segment(jws: Seq<char>) -> Result<Seq<char>, ErrorView> {
    let parts = split_on(jws, '.');
    if parts.len() < 2 {
        Err(ErrorView::InvalidArgument("JWS is missing a payload segment"@))
    } else if parts.len() < 3 {
        Err(ErrorView::InvalidArgument("JWS is missing a signature segment"@))
    } else if parts.len() > 3 {
        Err(ErrorView::InvalidArgument("JWS contains too many segments"@))
    } else {
        Ok(parts[1])
    }
}

/// Finds the payload segment of a compact JWS: the text between its first and second `.`. It
/// is an error unless the JWS has exactly three segments.
pub fn jws_payload_segment(jws: &str) -> (r: Result<&str, StoreKitError>)
    ensures
        outcome(r, spec_jws_payload_segment(jws@)),
{
    let n = jws.unicode_len();
    let mut count: usize = 0;
    let mut first: usize = 0;
    let mut second: usize = 0;
    let mut i: usize = 0;
    proof {
        assert(jws@.take(0) =~= Seq::<char>::empty());
    }
    while i < n
        invariant
            n == jws@.len(),
            i <= n,
            count <= i,
            split_on(jws@.take(i as int), '.').len() == count + 1,
            count >= 1 ==> first < i && jws@[first as int] == '.',
            count >= 2 ==> first < second && second < i,
            count == 1 ==> split_on(jws@.take(i as int), '.')[1] == jws@.subrange(
                first + 1,
                i as int,
            ),
            count >= 2 ==> split_on(jws@.take(i as int), '.')[1] == jws@.subrange(
                first + 1,
                second as int,
            ),
        decreases n - i,
    {
        let c = jws.get_char(i);
        let ghost before = split_on(jws@.take(i as int), '.');
        proof {
            assert(jws@.take(i + 1).drop_last() =~= jws@.take(i as int));
            assert(jws@.take(i + 1).last() == c);
            split_on_is_not_empty(jws@.take(i as int), '.');
        }
        if c == '.' {
            if count == 0 {
                first = i;
            } else if count == 1 {
                second = i;
            }
            count = count + 1;
        } else {
            proof {
                if count == 1 {
                    assert(jws@.subrange(first + 1, i + 1) =~= jws@.subrange(first + 1, i as int).push(c));
                }
            }
        }
        i = i + 1;
    }
    proof {
        assert(jws@.take(n as int) =~= jws@);
    }
    if count < 1 {
        Err(StoreKitError::InvalidArgument(owned("JWS is missing a payload segment")))
    } else if count < 2 {
        Err(StoreKitError::InvalidArgument(owned("JWS is missing a signature segment")))
    } else if count > 2 {
        Err(StoreKitError::InvalidArgument(owned("JWS contains too many segments")))
    } else {
        Ok(jws.substring_char(first + 1, second))
    }
}

/// Declares `serde_json::Value`, opaque: the decoded payload of a JWS.
#[verifier::external_type_specification]
#[verifier::external_body]
pub struct ExJsonValue(serde_json::Value);

/// The display text of the error that `serde_json::from_slice::<serde_json::Value>` returns for
/// the bytes, or `None` when they parse.
pub uninterp spec fn json_value_error(bytes: Seq<u8>) -> Option<Seq<char>>;

/// The value that `serde_json::from_slice::<serde_json::Value>` parses from the bytes, where they
/// parse.
pub uninterp spec fn json_value_of(bytes: Seq<u8>) -> serde_json::Value;

/// Calls `serde_json::from_slice::<serde_json::Value>`. The contract claims that it fails
/// exactly when `json_value_error` names an error, with that text, and otherwise returns the
/// value named by `json_value_of` for the bytes.
#[verifier::external_body]
fn parse_json_value(bytes: &[u8]) -> (r: Result<serde_json::Value, String>)
    ensures
        match json_value_error(bytes@) {
            None => r matches Ok(v) && v == json_value_of(bytes@),
            Some(text) => r matches Err(m) && m@ == text,
        },
{
    match serde_json::from_slice::<serde_json::Value>(bytes) {
        Ok(value) => Ok(value),
        Err(error) => Err(error.to_string()),
    }
}

/// The app receipt on disk.
#[derive(Debug, Clone, PartialEq, Eq)]
pub struct AppReceipt {
    /// Where the receipt is.
    pub path: String,
    /// The receipt's bytes.
    pub data: Vec<u8>,
}

/// Reads receipts and signed payloads.
#[derive(Debug, Clone, Copy, Default)]
pub struct ReceiptValidator;

/// The receipt object that the bridge sends as JSON.
pub struct AppReceiptPayload {
    pub path: String,
    pub data_base64: String,
}

/// How `into_receipt` converts a receipt object: it fails only when the data is not Base64.
pub open spec fn receipt_outcome(p: AppReceiptPayload, r: Result<AppReceipt, StoreKitError>) -> bool {
    match spec_decode_base64(p.data_base64@, "receipt data"@) {
        Err(e) => r matches Err(x) && x@ == e,
        Ok(data) => r matches Ok(a) && a.path == p.path && a.data@ == data,
    }
}

impl AppReceiptPayload {
    /// Converts the bridge's receipt object.
    pub fn into_receipt(self) -> (r: Result<AppReceipt, StoreKitError>)
        ensures
            receipt_outcome(self, r),
    {
        let data = decode_base64(self.data_base64.as_str(), "receipt data")?;
        Ok(AppReceipt { path: self.path, data })
    }
}

/// What `extract_unverified_payload` answers for a JWS: the errors of its segments and of the
/// Base64 of its payload segment, then the JSON value of the decoded payload or its error.
pub open spec fn extracts(jws: Seq<char>, r: Result<serde_json::Value, StoreKitError>) -> bool {
    match spec_jws_payload_segment(jws) {
        Err(e) => r matches Err(x) && x@ == e,
        Ok(segment) => match spec_decode_base64_urlsafe(segment, "JWS payload"@) {
            Err(e) => r matches Err(x) && x@ == e,
            Ok(bytes) => match json_value_error(bytes) {
                None => r matches Ok(v) && v == json_value_of(bytes),
                Some(text) => r matches Err(x) && x@ == ErrorView::InvalidArgument(
                    "failed to decode JWS payload JSON: "@ + text,
                ),
            },
        },
    }
}

impl ReceiptValidator {
    /// Reads the bridge's optional receipt object.
    pub fn receipt_from_bridge(payload: Option<AppReceiptPayload>) -> (r: Result<Option<AppReceipt>, StoreKitError>)
        ensures
            match payload {
                None => r matches Ok(None),
                Some(p) => match spec_decode_base64(p.data_base64@, "receipt data"@) {
                    Err(e) => r matches Err(x) && x@ == e,
                    Ok(data) => r matches Ok(Some(a)) && a.path == p.path && a.data@ == data,
                },
            },
    {
        match payload {
            None => Ok(None),
            Some(p) => {
                let receipt = p.into_receipt()?;
                Ok(Some(receipt))
            },
        }
    }

    /// Decodes the payload of a compact JWS without checking its signature. The JWS must have
    /// exactly three segments, the payload must be URL-safe Base64 without padding, and it must
    /// be JSON.
    pub fn extract_unverified_payload(jws: &str) -> (r: Result<serde_json::Value, StoreKitError>)
        ensures
            extracts(jws@, r),
    {
        let segment = jws_payload_segment(jws)?;
        let bytes = decode_base64_urlsafe(segment, "JWS payload")?;
        match parse_json_value(bytes.as_slice()) {
            Ok(value) => Ok(value),
            Err(text) => Err(
                StoreKitError::InvalidArgument(
                    concat2("failed to decode JWS payload JSON: ", text.as_str()),
                ),
            ),
        }
    }
}


/// Reading a receipt object succeeds exactly when its data is valid Base64, and the receipt then
/// has the object's path and the decoding of its data.
pub proof fn receipts_carry_every_field(p: AppReceiptPayload, r: Result<AppReceipt, StoreKitError>)
    requires
        receipt_outcome(p, r),
    ensures
        r is Ok <==> base64_standard(p.data_base64@) is Ok,
        r matches Ok(a) ==> a.path == p.path && base64_standard(p.data_base64@) == Ok::<
            Seq<u8>,
            Seq<char>,
        >(a.data@),
{
}

/// The unverified payload of a compact JWS depends on its payload segment alone: two JWS whose
/// payload segments are equal give equal answers, whatever their header and signature.
pub proof fn unverified_payloads_read_only_the_payload_segment(
    first: Seq<char>,
    second: Seq<char>,
    first_result: Result<serde_json::Value, StoreKitError>,
    second_result: Result<serde_json::Value, StoreKitError>,
)
    requires
        spec_jws_payload_segment(first) is Ok,
        spec_jws_payload_segment(first) == spec_jws_payload_segment(second),
        extracts(first, first_result),
        extracts(second, second_result),
    ensures
        first_result is Ok <==> second_result is Ok,
        first_result matches Ok(v) ==> second_result == Ok::<serde_json::Value, StoreKitError>(v),
        first_result matches Err(e) ==> second_result matches Err(x) && x@ == e@,
{
}


/// How many times `c` occurs in `s`.
pub open spec fn occurrences(s: Seq<char>, c: char) -> nat
    decreases s.len(),
{
    if s.len() == 0 {
        0
    } else {
        occurrences(s.drop_last(), c) + if s.last() == c { 1nat } else { 0nat }
    }
}

/// The pieces joined again, with `sep` between each two.
pub open spec fn joined(pieces: Seq<Seq<char>>, sep: char) -> Seq<char>
    decreases pieces.len(),
{
    if pieces.len() <= 1 {
        if pieces.len() == 1 { pieces[0] } else { Seq::empty() }
    } else {
        joined(pieces.drop_last(), sep) + seq![sep] + pieces.last()
    }
}

/// Splitting on `sep` gives one more piece than `sep` occurs, no piece holds `sep`, and the
/// pieces joined with `sep` give the text back.
pub proof fn split_on_pieces_rebuild_the_text(s: Seq<char>, sep: char)
    ensures
        split_on(s, sep).len() == occurrences(s, sep) + 1,
        forall|i: int| 0 <= i < split_on(s, sep).len() ==> !(#[trigger] split_on(s, sep)[i]).contains(sep),
        joined(split_on(s, sep), sep) == s,
    decreases s.len(),
{
    if s.len() == 0 {
        assert(split_on(s, sep)[0] =~= Seq::<char>::empty());
        assert(s =~= Seq::<char>::empty());
    } else {
        let rest = split_on(s.drop_last(), sep);
        split_on_pieces_rebuild_the_text(s.drop_last(), sep);
        split_on_is_not_empty(s.drop_last(), sep);
        let parts = split_on(s, sep);
        let c = s.last();
        if c == sep {
            assert(parts == rest.push(Seq::<char>::empty()));
            assert(parts.drop_last() =~= rest);
            assert forall|i: int| 0 <= i < parts.len() implies !(#[trigger] parts[i]).contains(sep) by {
                if i < rest.len() {
                    assert(parts[i] == rest[i]);
                } else {
                    assert(parts[i] =~= Seq::<char>::empty());
                }
            }
            assert(joined(parts, sep) =~= joined(rest, sep) + seq![sep] + Seq::<char>::empty());
            assert(s =~= s.drop_last().push(c));
        } else {
            let last = rest.last().push(c);
            assert(parts == rest.update(rest.len() - 1, last));
            assert forall|i: int| 0 <= i < parts.len() implies !(#[trigger] parts[i]).contains(sep) by {
                if i < rest.len() - 1 {
                    assert(parts[i] == rest[i]);
                } else {
                    assert(parts[i] == last);
                    assert(!rest[rest.len() - 1].contains(sep));
                    if last.contains(sep) {
                        let k = choose|k: int| 0 <= k < last.len() && last[k] == sep;
                        if k < rest.last().len() {
                            assert(rest.last()[k] == sep);
                        }
                    }
                }
            }
            if rest.len() == 1 {
                assert(joined(rest, sep) == rest[0]);
                assert(joined(parts, sep) == parts[0]);
                assert(s =~= rest[0].push(c));
            } else {
                assert(parts.drop_last() =~= rest.drop_last());
                assert(joined(rest, sep) == joined(rest.drop_last(), sep) + seq![sep] + rest.last());
                assert(joined(parts, sep) == joined(parts.drop_last(), sep) + seq![sep] + parts.last());
                assert(joined(parts, sep) =~= joined(rest, sep).push(c));
                assert(s =~= s.drop_last().push(c));
            }
        }
    }
}

/// `jws` is `header`, a dot, `segment`, a dot and `signature`, none of the three holding a dot.
pub open spec fn frames(jws: Seq<char>, header: Seq<char>, segment: Seq<char>, signature: Seq<char>) -> bool {
    &&& !header.contains('.')
    &&& !segment.contains('.')
    &&& !signature.contains('.')
    &&& jws == header + seq!['.'] + segment + seq!['.'] + signature
}

/// The payload segment of a compact JWS is found exactly when the JWS holds two dots; it is
/// then the text between them: the JWS is its first piece, a dot, the segment, a dot and its
/// last piece, none of the three holding a dot.
pub proof fn payload_segment_lies_between_the_two_dots(jws: Seq<char>)
    ensures
        spec_jws_payload_segment(jws) is Ok <==> occurrences(jws, '.') == 2,
        spec_jws_payload_segment(jws) is Ok ==> frames(
            jws,
            split_on(jws, '.')[0],
            spec_jws_payload_segment(jws)->Ok_0,
            split_on(jws, '.')[2],
        ),
        occurrences(jws, '.') == 0 ==> spec_jws_payload_segment(jws) == Err::<Seq<char>, ErrorView>(
            ErrorView::InvalidArgument("JWS is missing a payload segment"@),
        ),
        occurrences(jws, '.') == 1 ==> spec_jws_payload_segment(jws) == Err::<Seq<char>, ErrorView>(
            ErrorView::InvalidArgument("JWS is missing a signature segment"@),
        ),
        occurrences(jws, '.') > 2 ==> spec_jws_payload_segment(jws) == Err::<Seq<char>, ErrorView>(
            ErrorView::InvalidArgument("JWS contains too many segments"@),
        ),
{
    split_on_pieces_rebuild_the_text(jws, '.');
    let parts = split_on(jws, '.');
    if parts.len() == 3 {
        assert(parts.drop_last().drop_last().len() == 1);
        assert(joined(parts.drop_last(), '.') == joined(parts.drop_last().drop_last(), '.') + seq!['.']
            + parts.drop_last().last());
        assert(joined(parts.drop_last().drop_last(), '.') == parts[0]);
        assert(parts.drop_last().last() == parts[1]);
        assert(parts.last() == parts[2]);
        assert(!parts[0].contains('.'));
        assert(!parts[1].contains('.'));
        assert(!parts[2].contains('.'));
        assert(jws == parts[0] + seq!['.'] + parts[1] + seq!['.'] + parts[2]);
        assert(frames(jws, parts[0], parts[1], parts[2]));
        assert(spec_jws_payload_segment(jws) == Ok::<Seq<char>, ErrorView>(parts[1]));
    }
}

} // verus!
