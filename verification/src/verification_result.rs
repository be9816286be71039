//! `StoreKit.VerificationResult`: a signed payload with its metadata and the outcome of its
//! signature check.

use vstd::prelude::*;

use crate::error::{
    outcome, ErrorView, StoreKitError, VerificationErrorPayload, VerificationFailure,
};
use crate::private::{base64_standard, decode_base64, spec_decode_base64};
use crate::text::{concat3, owned};

verus! {

/// Metadata returned alongside a `StoreKit.VerificationResult`.
#[derive(Debug, Clone, PartialEq, Eq)]
pub struct VerificationMetadata {
    /// Compact JWS representation.
    pub jws_representation: String,
    /// Decoded JWS header bytes.
    pub header_data: Vec<u8>,
    /// Decoded JWS payload bytes.
    pub payload_data: Vec<u8>,
    /// Decoded JWS signature bytes.
    pub signature_data: Vec<u8>,
    /// Decoded signed-data bytes.
    pub signed_data: Vec<u8>,
    /// Signature timestamp.
    pub signed_date: String,
    /// Decoded device-verification bytes.
    pub device_verification: Vec<u8>,
    /// Device verification nonce.
    pub device_verification_nonce: String,
}

/// The contents of a [`VerificationMetadata`].
pub struct VerificationMetadataView {
    pub jws_representation: Seq<char>,
    pub header_data: Seq<u8>,
    pub payload_data: Seq<u8>,
    pub signature_data: Seq<u8>,
    pub signed_data: Seq<u8>,
    pub signed_date: Seq<char>,
    pub device_verification: Seq<u8>,
    pub device_verification_nonce: Seq<char>,
}

impl View for VerificationMetadata {
    type V = VerificationMetadataView;

    open spec fn view(&self) -> VerificationMetadataView {
        VerificationMetadataView {
            jws_representation: self.jws_representation@,
            header_data: self.header_data@,
            payload_data: self.payload_data@,
            signature_data: self.signature_data@,
            signed_data: self.signed_data@,
            signed_date: self.signed_date@,
            device_verification: self.device_verification@,
            device_verification_nonce: self.device_verification_nonce@,
        }
    }
}

impl VerificationMetadata {
    /// Returns the compact JWS representation.
    pub fn jws_representation(&self) -> (r: &str)
        ensures
            r@ == self.jws_representation@,
    {
        self.jws_representation.as_str()
    }
}

/// Wraps `StoreKit.VerificationResult`.
#[derive(Debug, Clone, PartialEq, Eq)]
pub enum VerificationResult<T> {
    /// `StoreKit` verified the payload signature.
    Verified {
        /// Decoded payload.
        payload: T,
        /// Verification metadata.
        metadata: VerificationMetadata,
    },
    /// `StoreKit` returned the payload but verification failed.
    Unverified {
        /// Decoded payload.
        payload: T,
        /// Verification metadata.
        metadata: VerificationMetadata,
        /// Why verification failed.
        failure: VerificationFailure,
    },
}

impl<T> VerificationResult<T> {
    /// The payload, verified or not.
    pub open spec fn spec_payload(&self) -> T {
        match self {
            VerificationResult::Verified { payload, .. } => *payload,
            VerificationResult::Unverified { payload, .. } => *payload,
        }
    }

    /// The metadata.
    pub open spec fn spec_metadata(&self) -> VerificationMetadata {
        match self {
            VerificationResult::Verified { metadata, .. } => *metadata,
            VerificationResult::Unverified { metadata, .. } => *metadata,
        }
    }

    /// The verification failure, if any.
    pub open spec fn spec_failure(&self) -> Option<VerificationFailure> {
        match self {
            VerificationResult::Verified { .. } => None,
            VerificationResult::Unverified { failure, .. } => Some(*failure),
        }
    }

    /// Returns `true` when `StoreKit` verified the payload.
    pub fn is_verified(&self) -> (r: bool)
        ensures
            r == (self is Verified),
            r == self.spec_failure().is_none(),
    {
        match self {
            VerificationResult::Verified { .. } => true,
            VerificationResult::Unverified { .. } => false,
        }
    }

    /// Returns the decoded payload, whether or not it was verified.
    pub fn payload(&self) -> (r: &T)
        ensures
            *r == self.spec_payload(),
    {
        match self {
            VerificationResult::Verified { payload, .. } => payload,
            VerificationResult::Unverified { payload, .. } => payload,
        }
    }

    /// Consumes the wrapper and returns the decoded payload, whether or not it was verified.
    pub fn into_payload(self) -> (r: T)
        ensures
            r == self.spec_payload(),
    {
        match self {
            VerificationResult::Verified { payload, .. } => payload,
            VerificationResult::Unverified { payload, .. } => payload,
        }
    }

    /// Returns the verification metadata.
    pub fn metadata(&self) -> (r: &VerificationMetadata)
        ensures
            *r == self.spec_metadata(),
    {
        match self {
            VerificationResult::Verified { metadata, .. } => metadata,
            VerificationResult::Unverified { metadata, .. } => metadata,
        }
    }

    /// Returns the verification failure, if any.
    pub fn verification_failure(&self) -> (r: Option<&VerificationFailure>)
        ensures
            match self.spec_failure() {
                Some(f) => r matches Some(g) && *g == f,
                None => r is None,
            },
    {
        match self {
            VerificationResult::Verified { .. } => None,
            VerificationResult::Unverified { failure, .. } => Some(failure),
        }
    }

    /// Consumes the wrapper and returns the payload, the metadata and the failure, if any.
    pub fn into_parts(self) -> (r: (T, VerificationMetadata, Option<VerificationFailure>))
        ensures
            r.0 == self.spec_payload(),
            r.1 == self.spec_metadata(),
            r.2 == self.spec_failure(),
    {
        match self {
            VerificationResult::Verified { payload, metadata } => (payload, metadata, None),
            VerificationResult::Unverified { payload, metadata, failure } => (
                payload,
                metadata,
                Some(failure),
            ),
        }
    }

    /// Returns the compact JWS representation.
    pub fn jws_representation(&self) -> (r: &str)
        ensures
            r@ == self.spec_metadata().jws_representation@,
    {
        self.metadata().jws_representation()
    }

    /// Returns the payload only when `StoreKit` verified it, and the verification failure
    /// otherwise.
    pub fn payload_value(&self) -> (r: Result<&T, StoreKitError>)
        ensures
            match self.spec_failure() {
                None => r matches Ok(p) && *p == self.spec_payload(),
                Some(f) => r matches Err(e) && e == StoreKitError::Verification(f),
            },
    {
        match self {
            VerificationResult::Verified { payload, .. } => Ok(payload),
            VerificationResult::Unverified { failure, .. } => Err(
                StoreKitError::Verification(failure.duplicate()),
            ),
        }
    }

    /// Consumes the wrapper; returns the payload only when `StoreKit` verified it, and the
    /// verification failure otherwise.
    pub fn into_payload_value(self) -> (r: Result<T, StoreKitError>)
        ensures
            match self.spec_failure() {
                None => r == Ok::<T, StoreKitError>(self.spec_payload()),
                Some(f) => r matches Err(e) && e == StoreKitError::Verification(f),
            },
    {
        match self {
            VerificationResult::Verified { payload, .. } => Ok(payload),
            VerificationResult::Unverified { failure, .. } => Err(
                StoreKitError::Verification(failure),
            ),
        }
    }

    /// Returns the payload without looking at the outcome of verification.
    pub fn unverified_payload(&self) -> (r: &T)
        ensures
            *r == self.spec_payload(),
    {
        self.payload()
    }

    /// Consumes the wrapper and returns the payload without looking at the outcome of
    /// verification.
    pub fn into_unverified_payload(self) -> (r: T)
        ensures
            r == self.spec_payload(),
    {
        self.into_payload()
    }
}

/// The metadata object that the bridge sends as JSON, byte fields in Base64.
pub struct VerificationMetadataPayload {
    pub jws_representation: String,
    pub header_data_base64: String,
    pub payload_data_base64: String,
    pub signature_data_base64: String,
    pub signed_data_base64: String,
    pub signed_date: String,
    pub device_verification_base64: String,
    pub device_verification_nonce: String,
}

/// The metadata that `into_metadata` builds, or its error.
pub open spec fn spec_into_metadata(p: VerificationMetadataPayload) -> Result<
    VerificationMetadataView,
    ErrorView,
> {
    match spec_decode_base64(p.header_data_base64@, "verification header data"@) {
        Err(e) => Err(e),
        Ok(header) => match spec_decode_base64(
            p.payload_data_base64@,
            "verification payload data"@,
        ) {
            Err(e) => Err(e),
            Ok(payload) => match spec_decode_base64(
                p.signature_data_base64@,
                "verification signature data"@,
            ) {
                Err(e) => Err(e),
                Ok(signature) => match spec_decode_base64(
                    p.signed_data_base64@,
                    "verification signed data"@,
                ) {
                    Err(e) => Err(e),
                    Ok(signed) => match spec_decode_base64(
                        p.device_verification_base64@,
                        "verification device data"@,
                    ) {
                        Err(e) => Err(e),
                        Ok(device) => Ok(
                            VerificationMetadataView {
                                jws_representation: p.jws_representation@,
                                header_data: header,
                                payload_data: payload,
                                signature_data: signature,
                                signed_data: signed,
                                signed_date: p.signed_date@,
                                device_verification: device,
                                device_verification_nonce: p.device_verification_nonce@,
                            },
                        ),
                    },
                },
            },
        },
    }
}

impl VerificationMetadataPayload {
    /// Decodes the Base64 fields; the first that does not decode gives the error.
    pub fn into_metadata(self) -> (r: Result<VerificationMetadata, StoreKitError>)
        ensures
            outcome(r, spec_into_metadata(self)),
    {
        let header_data = decode_base64(self.header_data_base64.as_str(), "verification header data")?;
        let payload_data = decode_base64(self.payload_data_base64.as_str(), "verification payload data")?;
        let signature_data = decode_base64(
            self.signature_data_base64.as_str(),
            "verification signature data",
        )?;
        let signed_data = decode_base64(self.signed_data_base64.as_str(), "verification signed data")?;
        let device_verification = decode_base64(
            self.device_verification_base64.as_str(),
            "verification device data",
        )?;
        Ok(
            VerificationMetadata {
                jws_representation: self.jws_representation,
                header_data,
                payload_data,
                signature_data,
                signed_data,
                signed_date: self.signed_date,
                device_verification,
                device_verification_nonce: self.device_verification_nonce,
            },
        )
    }
}

/// The verification result object that the bridge sends as JSON.
pub struct VerificationResultPayload<T> {
    /// `"verified"` or `"unverified"`.
    pub kind: String,
    /// The payload.
    pub payload: T,
    /// The metadata.
    pub metadata: VerificationMetadataPayload,
    /// The verification error, for an unverified result.
    pub verification_error: Option<VerificationErrorPayload>,
}

/// How `finish` assembles a verification result: the payload's own error first, then the
/// metadata's, then the result that `kind` names.
pub open spec fn finish_outcome<U>(
    kind: Seq<char>,
    payload: Result<U, StoreKitError>,
    metadata: VerificationMetadataPayload,
    verification_error: Option<VerificationErrorPayload>,
    r: Result<VerificationResult<U>, StoreKitError>,
) -> bool {
    match payload {
        Err(e) => r == Err::<VerificationResult<U>, StoreKitError>(e),
        Ok(u) => match spec_into_metadata(metadata) {
            Err(e) => r matches Err(x) && x@ == e,
            Ok(m) => if kind == "verified"@ {
                r matches Ok(VerificationResult::Verified { payload: p, metadata: md }) && p == u
                    && md@ == m
            } else if kind == "unverified"@ {
                match verification_error {
                    None => r matches Err(x) && x@ == ErrorView::Unknown(
                        "StoreKit returned an unverified result without a verification error"@,
                    ),
                    Some(ve) => r matches Ok(
                        VerificationResult::Unverified { payload: p, metadata: md, failure },
                    ) && p == u && md@ == m && failure == VerificationFailure::spec_from_payload(
                        ve,
                    ),
                }
            } else {
                r matches Err(x) && x@ == ErrorView::Unknown(
                    "StoreKit returned an unknown verification result kind '"@ + kind + "'"@,
                )
            },
        },
    }
}

/// Only a result that `StoreKit` reported as verified hands out its payload as verified: a
/// result with no verification failure comes from the kind `"verified"`, and a result of the
/// kind `"unverified"` carries the failure that `StoreKit` reported. Either way the payload is
/// the converted one.
pub proof fn only_verified_results_lack_a_failure<U>(
    kind: Seq<char>,
    payload: Result<U, StoreKitError>,
    metadata: VerificationMetadataPayload,
    verification_error: Option<VerificationErrorPayload>,
    r: Result<VerificationResult<U>, StoreKitError>,
)
    requires
        finish_outcome(kind, payload, metadata, verification_error, r),
    ensures
        r matches Ok(v) ==> payload == Ok::<U, StoreKitError>(v.spec_payload()),
        r matches Ok(v) ==> (v.spec_failure() is None <==> kind == "verified"@),
        kind == "unverified"@ ==> (r matches Ok(v) ==> (verification_error matches Some(ve)
            && v.spec_failure() == Some(VerificationFailure::spec_from_payload(ve)))),
{
    reveal_strlit("verified");
    reveal_strlit("unverified");
    assert("verified"@.len() != "unverified"@.len());
}

/// Assembles a verification result from its kind, the already converted payload, the metadata
/// object and the verification error object.
pub fn finish<U>(
    kind: String,
    payload: Result<U, StoreKitError>,
    metadata: VerificationMetadataPayload,
    verification_error: Option<VerificationErrorPayload>,
) -> (r: Result<VerificationResult<U>, StoreKitError>)
    ensures
        finish_outcome(kind@, payload, metadata, verification_error, r),
{
    let payload = payload?;
    let metadata = metadata.into_metadata()?;
    if crate::text::text_eq(kind.as_str(), "verified") {
        Ok(VerificationResult::Verified { payload, metadata })
    } else if crate::text::text_eq(kind.as_str(), "unverified") {
        match verification_error {
            None => Err(
                StoreKitError::Unknown(
                    owned("StoreKit returned an unverified result without a verification error"),
                ),
            ),
            Some(ve) => Ok(
                VerificationResult::Unverified {
                    payload,
                    metadata,
                    failure: VerificationFailure::from_payload(ve),
                },
            ),
        }
    } else {
        Err(
            StoreKitError::Unknown(
                concat3(
                    "StoreKit returned an unknown verification result kind '",
                    kind.as_str(),
                    "'",
                ),
            ),
        )
    }
}

impl<T> VerificationResultPayload<T> {
    /// Converts the payload with `map_payload`, then assembles the verification result.
    pub fn into_result<U, F: FnOnce(T) -> Result<U, StoreKitError>>(self, map_payload: F) -> (r:
        Result<VerificationResult<U>, StoreKitError>)
        requires
            call_requires(map_payload, (self.payload,)),
        ensures
            exists|mapped: Result<U, StoreKitError>|
                call_ensures(map_payload, (self.payload,), mapped) && finish_outcome(
                    self.kind@,
                    mapped,
                    self.metadata,
                    self.verification_error,
                    r,
                ),
    {
        let mapped = map_payload(self.payload);
        finish(self.kind, mapped, self.metadata, self.verification_error)
    }
}


/// `m` holds the Base64 decoding of each data field of `p`, field by field, and the text
/// fields of `p` as they are.
pub open spec fn holds_decoded_fields(m: VerificationMetadata, p: VerificationMetadataPayload) -> bool {
    &&& base64_standard(p.header_data_base64@) == Ok::<Seq<u8>, Seq<char>>(m.header_data@)
    &&& base64_standard(p.payload_data_base64@) == Ok::<Seq<u8>, Seq<char>>(m.payload_data@)
    &&& base64_standard(p.signature_data_base64@) == Ok::<Seq<u8>, Seq<char>>(m.signature_data@)
    &&& base64_standard(p.signed_data_base64@) == Ok::<Seq<u8>, Seq<char>>(m.signed_data@)
    &&& base64_standard(p.device_verification_base64@) == Ok::<Seq<u8>, Seq<char>>(
        m.device_verification@,
    )
    &&& m.jws_representation@ == p.jws_representation@
    &&& m.signed_date@ == p.signed_date@
    &&& m.device_verification_nonce@ == p.device_verification_nonce@
}

/// Every data field of the metadata object is valid Base64.
pub open spec fn all_fields_decode(p: VerificationMetadataPayload) -> bool {
    &&& base64_standard(p.header_data_base64@) is Ok
    &&& base64_standard(p.payload_data_base64@) is Ok
    &&& base64_standard(p.signature_data_base64@) is Ok
    &&& base64_standard(p.signed_data_base64@) is Ok
    &&& base64_standard(p.device_verification_base64@) is Ok
}

/// Converting a metadata object succeeds exactly when each of its data fields is valid Base64,
/// and then each field of the metadata is the decoding of the field of the same name: the
/// payload data of the payload field, the signed data of the signed field, and so on.
pub proof fn metadata_holds_each_decoded_field(
    p: VerificationMetadataPayload,
    r: Result<VerificationMetadata, StoreKitError>,
)
    requires
        outcome(r, spec_into_metadata(p)),
    ensures
        r is Ok <==> all_fields_decode(p),
        r matches Ok(m) ==> holds_decoded_fields(m, p),
{
}

/// The metadata of an assembled verification result holds the decoding of each data field of
/// the bridge's metadata object, field by field.
pub proof fn results_hold_each_decoded_field<U>(
    kind: Seq<char>,
    payload: Result<U, StoreKitError>,
    metadata: VerificationMetadataPayload,
    verification_error: Option<VerificationErrorPayload>,
    r: Result<VerificationResult<U>, StoreKitError>,
)
    requires
        finish_outcome(kind, payload, metadata, verification_error, r),
    ensures
        r matches Ok(v) ==> holds_decoded_fields(v.spec_metadata(), metadata),
{
}

} // verus!
