//! Orchestrates, for a single stream object, the sequence: standard-filter
//! decompress, extra-layer detect and unwrap, format sniff, image recode or
//! fallback compress, extra-layer rewrap if one was present, standard-filter
//! recompress. Every per-stream failure degrades to the next coarser
//! strategy and is surfaced only through the returned outcome.

use vstd::prelude::*;
use crate::extra::{unwrap_extra, unwrap_extra_spec, wrap_extra, wrap_extra_spec, zlib_deflate_of};
use crate::recode::{recode_image, recode_spec, RecodeError};
use crate::sniff::{sniff, sniff_spec, FileSignature};

verus! {

#[verifier::external_type_specification]
#[verifier::external_body]
pub struct ExStream(lopdf::Stream);

/// The raw content bytes a stream object currently holds.
pub uninterp spec fn stream_content(s: lopdf::Stream) -> Seq<u8>;

/// The capability flag of a stream object: whether generic recompression is
/// permitted for it.
pub uninterp spec fn stream_allows(s: lopdf::Stream) -> bool;

/// Whether a stream object's dictionary declares no compression filter.
pub uninterp spec fn stream_plain(s: lopdf::Stream) -> bool;

/// Whether a stream object's dictionary declares neither a compression
/// filter nor decode parameters.
pub uninterp spec fn stream_bare(s: lopdf::Stream) -> bool;

/// What the document model's standard filter decoding yields for a stream
/// object: the decoded content when the declared filter chain can be
/// applied, `None` otherwise.
pub uninterp spec fn stream_decoded(s: lopdf::Stream) -> Option<Seq<u8>>;

/// Relies on the public `content` field of lopdf::Stream.
#[verifier::external_body]
fn stream_content_bytes(s: &lopdf::Stream) -> (out: Vec<u8>)
    ensures
        out@ == stream_content(*s),
{
    s.content.clone()
}

/// Relies on the public `allows_compression` field of lopdf::Stream.
#[verifier::external_body]
fn stream_allows_compression(s: &lopdf::Stream) -> (b: bool)
    ensures
        b == stream_allows(*s),
{
    s.allows_compression
}

/// Relies on lopdf::Stream::set_content: it replaces the content buffer and
/// updates the declared length to match, leaving the rest of the dictionary
/// and the capability flag as they were; a stream that declares no filter
/// decodes to its own content.
#[verifier::external_body]
fn stream_set_content(s: &mut lopdf::Stream, content: Vec<u8>)
    ensures
        stream_content(*final (s)) == content@,
        stream_allows(*final (s)) == stream_allows(*old(s)),
        stream_plain(*final (s)) == stream_plain(*old(s)),
        stream_bare(*final (s)) == stream_bare(*old(s)),
        stream_plain(*old(s)) ==> stream_decoded(*final (s)) == Some(content@),
{
    s.set_content(content);
}

/// Relies on lopdf::Stream::decompress: when the declared filter chain can
/// be decoded it replaces the content with the decoded bytes and removes
/// both the filter entry and the decode parameters, so the result decodes
/// to itself; otherwise the stream is left untouched. A stream that
/// declares no filter decodes to its own content, whatever else its
/// dictionary holds.
#[verifier::external_body]
fn stream_decompress(s: &mut lopdf::Stream)
    ensures
        stream_allows(*final (s)) == stream_allows(*old(s)),
        match stream_decoded(*old(s)) {
            Some(decoded) => stream_content(*final (s)) == decoded && stream_plain(*final (s))
                && stream_bare(*final (s)) && stream_decoded(*final (s)) == Some(decoded),
            None => *final (s) == *old(s),
        },
        stream_plain(*old(s)) ==> stream_decoded(*old(s)) == Some(stream_content(*old(s))),
{
    let _ = s.decompress();
}

/// What the document model's generic compressor commits for a filterless
/// stream holding `c`: the maximum-level zlib encoding when that is at
/// least twenty bytes smaller, otherwise the content unchanged.
pub open spec fn generic_compressed_spec(c: Seq<u8>) -> Seq<u8> {
    if zlib_deflate_of(c).len() + 19 < c.len() {
        zlib_deflate_of(c)
    } else {
        c
    }
}

/// Relies on lopdf::Stream::compress: a stream that declares no filter is
/// run through flate2's zlib encoder at the maximum level and, exactly when
/// that output is at least twenty bytes smaller, the content is replaced by
/// it with the filter entry set to match, so that — absent stale decode
/// parameters — standard decoding restores exactly the prior content; a
/// stream that already declares a filter, or one whose compression fails,
/// is left untouched.
#[verifier::external_body]
fn stream_compress(s: &mut lopdf::Stream) -> (r: Result<(), ()>)
    ensures
        stream_allows(*final (s)) == stream_allows(*old(s)),
        stream_plain(*old(s)) && r is Ok ==> stream_content(*final (s))
            == generic_compressed_spec(stream_content(*old(s))),
        stream_bare(*old(s)) && r is Ok ==> stream_decoded(*final (s)) == Some(
            stream_content(*old(s)),
        ),
        !stream_plain(*old(s)) ==> *final (s) == *old(s),
        r is Err ==> *final (s) == *old(s),
        stream_plain(*old(s)) ==> stream_decoded(*old(s)) == Some(stream_content(*old(s))),
{
    match s.compress() {
        Ok(()) => Ok(()),
        Err(_) => Err(()),
    }
}

/// Per-stream result of one transcoding pass, used only for reporting.
#[derive(Clone, Copy, Debug, PartialEq, Eq, Structural)]
pub enum TranscodeOutcome {
    /// The stream carried a decodable image and now holds its re-encoded
    /// bytes.
    Recoded,
    /// The stream was not an image and was re-run through generic
    /// compression.
    Recompressed,
    /// The stream was not an image and its capability flag forbids generic
    /// compression; it was left exactly as decompressed.
    Skipped,
    /// Recoding failed for the recorded reason; the stream degraded to the
    /// next coarser strategy.
    Failed(RecodeError),
}

/// What the per-stream pass decided for a content buffer: the replacement
/// bytes to commit, if any; whether the generic fallback compressor is still
/// to be applied; and the recode failure to report, if one occurred.
pub struct TranscodePlan {
    pub replacement: Option<Vec<u8>>,
    pub fallback: bool,
    pub failure: Option<RecodeError>,
}

/// Mathematical view of a plan.
pub struct PlanModel {
    pub replacement: Option<Seq<u8>>,
    pub fallback: bool,
    pub failure: Option<RecodeError>,
}

impl TranscodePlan {
    pub open spec fn model(self) -> PlanModel {
        PlanModel {
            replacement: match self.replacement {
                Some(v) => Some(v@),
                None => None,
            },
            fallback: self.fallback,
            failure: self.failure,
        }
    }
}

/// The plan for a decompressed content buffer at a quality level. An extra
/// zlib layer is unwrapped first and always restored around whatever the
/// recode step keeps or produces; a buffer that then carries the JPEG
/// signature is recoded, every other buffer is handed to the generic
/// fallback. A decode failure degrades to the fallback on the unwrapped
/// bytes; an encode failure retains the pre-encode content with no further
/// transform.
pub open spec fn plan_spec(content: Seq<u8>, quality: u8) -> PlanModel {
    let had_extra = sniff_spec(content) == FileSignature::ZlibWrapped;
    let current = if had_extra {
        unwrap_extra_spec(content)
    } else {
        content
    };
    if sniff_spec(current) == FileSignature::JpegImage {
        match recode_spec(current, quality) {
            Ok(encoded) => PlanModel {
                replacement: Some(
                    if had_extra {
                        wrap_extra_spec(encoded)
                    } else {
                        encoded
                    },
                ),
                fallback: false,
                failure: None,
            },
            Err(RecodeError::EncodeFailed) => PlanModel {
                replacement: if had_extra {
                    Some(wrap_extra_spec(current))
                } else {
                    None
                },
                fallback: false,
                failure: Some(RecodeError::EncodeFailed),
            },
            Err(e) => PlanModel {
                replacement: if had_extra {
                    Some(current)
                } else {
                    None
                },
                fallback: true,
                failure: Some(e),
            },
        }
    } else {
        PlanModel {
            replacement: if had_extra {
                Some(current)
            } else {
                None
            },
            fallback: true,
            failure: None,
        }
    }
}

/// The content the per-stream pass commits before any generic fallback
/// compression: the plan's replacement, or the decompressed content itself.
pub open spec fn committed_spec(content: Seq<u8>, quality: u8) -> Seq<u8> {
    match plan_spec(content, quality).replacement {
        Some(c) => c,
        None => content,
    }
}

/// The content a stream's standard decompression leaves in place: its
/// decoded content, or the raw content when decoding fails.
pub open spec fn post_decompress_content(s: lopdf::Stream) -> Seq<u8> {
    match stream_decoded(s) {
        Some(d) => d,
        None => stream_content(s),
    }
}

/// How one transcoding pass relates a stream object to its prior value:
/// the capability flag is untouched; the content is exactly the plan's
/// committed bytes, except that permitted generic fallback compression may
/// replace them by the document model's named compressor output; and —
/// the round-trip law — whenever standard decompression succeeded, decoding
/// the final stream restores the committed content byte for byte.
pub open spec fn stream_transcoded(s0: lopdf::Stream, s1: lopdf::Stream, quality: u8) -> bool {
    let content0 = post_decompress_content(s0);
    let plan = plan_spec(content0, quality);
    let committed = committed_spec(content0, quality);
    &&& stream_allows(s1) == stream_allows(s0)
    &&& if plan.fallback && stream_allows(s0) {
        stream_content(s1) == committed || stream_content(s1) == generic_compressed_spec(
            committed,
        )
    } else {
        stream_content(s1) == committed
    }
    &&& stream_decoded(s0) is Some ==> stream_decoded(s1) == Some(committed)
}

/// The outcome reported for a decompressed content buffer, given whether
/// the stream's capability flag permits generic compression.
pub open spec fn outcome_spec(content: Seq<u8>, quality: u8, allows: bool) -> TranscodeOutcome {
    let plan = plan_spec(content, quality);
    match plan.failure {
        Some(e) => TranscodeOutcome::Failed(e),
        None => if plan.fallback {
            if allows {
                TranscodeOutcome::Recompressed
            } else {
                TranscodeOutcome::Skipped
            }
        } else {
            TranscodeOutcome::Recoded
        },
    }
}

/// Law: a buffer that does not carry the JPEG signature after the
/// extra-layer stage is never routed into the image recoder — the plan
/// records no recode attempt, hands the buffer to the generic fallback, and
/// at most strips the extra layer.
pub proof fn lemma_non_jpeg_never_recoded(content: Seq<u8>, quality: u8)
    requires
        sniff_spec(
            if sniff_spec(content) == FileSignature::ZlibWrapped {
                unwrap_extra_spec(content)
            } else {
                content
            },
        ) != FileSignature::JpegImage,
    ensures
        plan_spec(content, quality).failure is None,
        plan_spec(content, quality).fallback,
        plan_spec(content, quality).replacement == if sniff_spec(content)
            == FileSignature::ZlibWrapped {
            Some(unwrap_extra_spec(content))
        } else {
            None::<Seq<u8>>
        },
{
}

/// Law: a buffer that carries neither the extra-layer signature nor the
/// JPEG signature is left exactly as it is by the per-stream plan, and with
/// the capability flag off the stream is never recompressed — the outcome
/// is Skipped.
pub proof fn lemma_flagged_stream_untouched(content: Seq<u8>, quality: u8)
    requires
        sniff_spec(content) != FileSignature::ZlibWrapped,
        sniff_spec(content) != FileSignature::JpegImage,
    ensures
        plan_spec(content, quality).replacement is None,
        committed_spec(content, quality) == content,
        outcome_spec(content, quality, false) == TranscodeOutcome::Skipped,
{
}

/// Decide what to do with a decompressed content buffer: detect and unwrap
/// the extra layer, sniff, recode or fall back, and rewrap when a layer was
/// present.
pub fn plan_transcode(content: &[u8], quality: u8) -> (plan: TranscodePlan)
    requires
        1 <= quality <= 100,
    ensures
        plan.model() == plan_spec(content@, quality),
{
    let sig = sniff(content);
    let had_extra = sig == FileSignature::ZlibWrapped;
    let current: Vec<u8> = if had_extra {
        unwrap_extra(content)
    } else {
        vstd::slice::slice_to_vec(content)
    };
    let sig_inner = sniff(current.as_slice());
    if sig_inner == FileSignature::JpegImage {
        match recode_image(current.as_slice(), quality) {
            Ok(encoded) => {
                let replacement = if had_extra {
                    wrap_extra(encoded.as_slice())
                } else {
                    encoded
                };
                TranscodePlan { replacement: Some(replacement), fallback: false, failure: None }
            },
            Err(RecodeError::EncodeFailed) => {
                let replacement = if had_extra {
                    Some(wrap_extra(current.as_slice()))
                } else {
                    None
                };
                TranscodePlan { replacement, fallback: false, failure: Some(
                    RecodeError::EncodeFailed,
                ) }
            },
            Err(e) => {
                let replacement = if had_extra {
                    Some(current)
                } else {
                    None
                };
                TranscodePlan { replacement, fallback: true, failure: Some(e) }
            },
        }
    } else {
        let replacement = if had_extra {
            Some(current)
        } else {
            None
        };
        TranscodePlan { replacement, fallback: true, failure: None }
    }
}

/// Transcode one stream object in place: standard decompress, plan on the
/// resulting content, commit the planned replacement, and apply generic
/// fallback compression when the plan asks for it and the capability flag
/// permits it.
///
/// The postconditions pin the pass down against the stream's decoded
/// content: the pass realizes the `stream_transcoded` relation, and the
/// outcome is the planned one.
pub fn transcode_stream(stream: &mut lopdf::Stream, quality: u8) -> (outcome: TranscodeOutcome)
    requires
        1 <= quality <= 100,
    ensures
        stream_transcoded(*old(stream), *final (stream), quality),
        outcome == outcome_spec(
            post_decompress_content(*old(stream)),
            quality,
            stream_allows(*old(stream)),
        ),
{
    let allows = stream_allows_compression(stream);
    stream_decompress(stream);
    let content0 = stream_content_bytes(stream);
    let plan = plan_transcode(content0.as_slice(), quality);
    let TranscodePlan { replacement, fallback, failure } = plan;
    match replacement {
        Some(bytes) => stream_set_content(stream, bytes),
        None => (),
    }
    if fallback && allows {
        let _ = stream_compress(stream);
    }
    match failure {
        Some(e) => TranscodeOutcome::Failed(e),
        None => if fallback {
            if allows {
                TranscodeOutcome::Recompressed
            } else {
                TranscodeOutcome::Skipped
            }
        } else {
            TranscodeOutcome::Recoded
        },
    }
}

} // verus!
