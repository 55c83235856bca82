//! Iterates every object of a loaded document, applies the per-stream
//! transcoder to every stream object, and returns the mutated document or
//! its serialized bytes. Objects that are not streams are untouched, the
//! object count and order are preserved, and a document without stream
//! objects comes back unchanged.

use vstd::prelude::*;
use crate::stream::{stream_transcoded, transcode_stream};

verus! {

#[verifier::external_type_specification]
#[verifier::external_body]
pub struct ExDocument(lopdf::Document);

#[verifier::external_type_specification]
#[verifier::external_body]
pub struct ExObject(lopdf::Object);

#[verifier::external_type_specification]
#[verifier::external_body]
pub struct ExError(lopdf::Error);

/// The object identifiers a document holds, in its internal object order.
pub uninterp spec fn doc_ids_of(d: lopdf::Document) -> Seq<(u32, u16)>;

/// The stream object a document stores under an identifier: `None` when the
/// identifier is absent or the object there is not a stream.
pub uninterp spec fn doc_stream_at(d: lopdf::Document, id: (u32, u16)) -> Option<lopdf::Stream>;

/// The object a document stores under an identifier, whatever its kind.
pub uninterp spec fn doc_object_at(d: lopdf::Document, id: (u32, u16)) -> Option<lopdf::Object>;

/// What parsing a byte sequence as a document yields: the loaded document,
/// or `None` when the bytes are not a parseable document.
pub uninterp spec fn parsed_document_of(bytes: Seq<u8>) -> Option<lopdf::Document>;

/// Relies on lopdf::Document::load_mem: parsing is a function of the bytes
/// alone, and unparseable bytes are reported as an error.
#[verifier::external_body]
fn load_document(bytes: &[u8]) -> (r: Result<lopdf::Document, lopdf::Error>)
    ensures
        match parsed_document_of(bytes@) {
            Some(d) => r matches Ok(doc) && doc == d,
            None => r is Err,
        },
{
    lopdf::Document::load_mem(bytes)
}

/// Relies on the keys of lopdf::Document::objects, a map keyed by object
/// identifier: each identifier appears once, in the map's iteration order,
/// and an identifier holding a stream is among the keys.
#[verifier::external_body]
fn document_object_ids(d: &lopdf::Document) -> (ids: Vec<(u32, u16)>)
    ensures
        ids@ == doc_ids_of(*d),
        forall|i: int, j: int| 0 <= i < j < ids@.len() ==> ids@[i] != ids@[j],
        forall|id: (u32, u16)| #[trigger] doc_stream_at(*d, id) is Some ==> ids@.contains(id),
{
    d.objects.keys().cloned().collect()
}

/// Relies on lopdf::Document::objects lookup: a clone of the stream stored
/// under the identifier, when the object there is a stream.
#[verifier::external_body]
fn document_get_stream(d: &lopdf::Document, id: (u32, u16)) -> (r: Option<lopdf::Stream>)
    ensures
        r == doc_stream_at(*d, id),
{
    match d.objects.get(&id) {
        Some(lopdf::Object::Stream(s)) => Some(s.clone()),
        _ => None,
    }
}

/// Relies on lopdf::Document::objects mutation: replaces the stream object
/// stored under an identifier that already holds a stream; every other
/// object is untouched and the identifier sequence keeps its order.
#[verifier::external_body]
fn document_put_stream(d: &mut lopdf::Document, id: (u32, u16), s: lopdf::Stream)
    requires
        doc_stream_at(*old(d), id) is Some,
    ensures
        doc_ids_of(*final (d)) == doc_ids_of(*old(d)),
        doc_stream_at(*final (d), id) == Some(s),
        forall|other: (u32, u16)|
            other != id ==> #[trigger] doc_stream_at(*final (d), other) == doc_stream_at(
                *old(d),
                other,
            ),
        forall|other: (u32, u16)|
            other != id ==> #[trigger] doc_object_at(*final (d), other) == doc_object_at(
                *old(d),
                other,
            ),
{
    if let Some(slot) = d.objects.get_mut(&id) {
        *slot = lopdf::Object::Stream(s);
    }
}

/// What serializing a document into memory yields: the output bytes, or
/// `None` when serialization fails.
pub uninterp spec fn saved_bytes_of(d: lopdf::Document) -> Option<Seq<u8>>;

/// Relies on lopdf::Document::save_to writing the serialized document into
/// an in-memory buffer: the output is a function of the document value
/// alone (objects are written in their map order, with no timestamps or
/// randomness), and a failure is reported as an error.
#[verifier::external_body]
fn save_document_bytes(d: &mut lopdf::Document) -> (r: Result<Vec<u8>, lopdf::Error>)
    ensures
        match saved_bytes_of(*old(d)) {
            Some(bytes) => r matches Ok(out) && out@ == bytes,
            None => r is Err,
        },
{
    let mut out = Vec::new();
    match d.save_to(&mut out) {
        Ok(()) => Ok(out),
        Err(e) => Err(lopdf::Error::IO(e)),
    }
}

/// How many of the given identifiers hold a stream in the document.
pub open spec fn stream_id_count(d: lopdf::Document, ids: Seq<(u32, u16)>) -> nat
    decreases ids.len(),
{
    if ids.len() == 0 {
        0
    } else {
        stream_id_count(d, ids.drop_last()) + if doc_stream_at(d, ids.last()) is Some {
            1nat
        } else {
            0nat
        }
    }
}

/// How one pipeline pass relates a document to its prior value: the
/// identifier sequence — hence the object count and order — is preserved;
/// objects that are not streams are untouched; every stream object now
/// stands in the `stream_transcoded` relation to its prior value; and a
/// document without stream objects is unchanged.
pub open spec fn document_transcoded(d0: lopdf::Document, d1: lopdf::Document, quality: u8) -> bool {
    &&& doc_ids_of(d1) == doc_ids_of(d0)
    &&& forall|id: (u32, u16)|
        doc_stream_at(d0, id) is None ==> #[trigger] doc_object_at(d1, id) == doc_object_at(
            d0,
            id,
        )
    &&& forall|id: (u32, u16)|
        (#[trigger] doc_stream_at(d1, id) is Some) == (doc_stream_at(d0, id) is Some)
    &&& forall|id: (u32, u16)|
        #[trigger] doc_stream_at(d0, id) is Some ==> doc_stream_at(d1, id) is Some
            && stream_transcoded(
            doc_stream_at(d0, id).unwrap(),
            doc_stream_at(d1, id).unwrap(),
            quality,
        )
    &&& (forall|id: (u32, u16)| #[trigger] doc_stream_at(d0, id) is None) ==> d1 == d0
}

/// Apply the per-stream transcoder to every stream object of the document,
/// in the document's internal object order, and return how many stream
/// objects were visited.
pub fn transcode_document(doc: &mut lopdf::Document, quality: u8) -> (transcoded: usize)
    requires
        1 <= quality <= 100,
    ensures
        document_transcoded(*old(doc), *final (doc), quality),
        transcoded == stream_id_count(*old(doc), doc_ids_of(*old(doc))),
{
    let ids = document_object_ids(doc);
    let ghost doc0 = *doc;
    let mut transcoded: usize = 0;
    let mut i: usize = 0;
    while i < ids.len()
        invariant
            1 <= quality <= 100,
            i <= ids.len(),
            transcoded <= i,
            ids@ == doc_ids_of(doc0),
            forall|a: int, b: int| 0 <= a < b < ids@.len() ==> ids@[a] != ids@[b],
            doc_ids_of(*doc) == doc_ids_of(doc0),
            forall|id: (u32, u16)|
                !ids@.take(i as int).contains(id) ==> #[trigger] doc_stream_at(*doc, id)
                    == doc_stream_at(doc0, id),
            forall|id: (u32, u16)|
                doc_stream_at(doc0, id) is None ==> #[trigger] doc_object_at(*doc, id)
                    == doc_object_at(doc0, id),
            forall|id: (u32, u16)|
                (#[trigger] doc_stream_at(*doc, id) is Some) == (doc_stream_at(doc0, id) is Some),
            forall|id: (u32, u16)|
                ids@.take(i as int).contains(id) && #[trigger] doc_stream_at(doc0, id) is Some
                    ==> doc_stream_at(*doc, id) is Some && stream_transcoded(
                    doc_stream_at(doc0, id).unwrap(),
                    doc_stream_at(*doc, id).unwrap(),
                    quality,
                ),
            (forall|id: (u32, u16)| #[trigger] doc_stream_at(doc0, id) is None) ==> *doc == doc0,
            transcoded == stream_id_count(doc0, ids@.take(i as int)),
        decreases ids.len() - i,
    {
        let id = ids[i];
        proof {
            assert(ids@.take(i as int + 1).drop_last() =~= ids@.take(i as int));
            assert(!ids@.take(i as int).contains(id)) by {
                if ids@.take(i as int).contains(id) {
                    let a = choose|a: int| 0 <= a < i && ids@.take(i as int)[a] == id;
                    assert(ids@[a] == ids@[i as int]);
                }
            }
        }
        match document_get_stream(doc, id) {
            Some(mut st) => {
                let _ = transcode_stream(&mut st, quality);
                document_put_stream(doc, id, st);
                transcoded = transcoded + 1;
            },
            None => (),
        }
        proof {
            assert(ids@.take(i as int + 1)[i as int] == id);
            assert(ids@.take(i as int + 1).contains(id));
            assert forall|id2: (u32, u16)| !ids@.take(i as int + 1).contains(id2) implies (id2
                != id && !ids@.take(i as int).contains(id2)) by {
                if ids@.take(i as int).contains(id2) {
                    let a = choose|a: int| 0 <= a < i && ids@.take(i as int)[a] == id2;
                    assert(ids@.take(i as int + 1)[a] == id2);
                    assert(ids@.take(i as int + 1).contains(id2));
                }
            }
        }
        i = i + 1;
    }
    proof {
        assert(ids@.take(ids@.len() as int) =~= ids@);
    }
    transcoded
}

/// The one fatal error of a run: the input bytes are not a parseable
/// document. Every per-stream problem is absorbed into its stream's
/// outcome instead.
#[derive(Clone, Copy, Debug, PartialEq, Eq, Structural)]
pub struct LoadError;

/// Take a document binary and output the transcoded document or its
/// serialized bytes. `image_quality` controls JPEG re-encoding fidelity
/// and must be in the range 1 to 100.
pub struct CompressPdf;

impl CompressPdf {
    /// Parse the bytes, transcode every stream object at the given quality,
    /// and return the mutated document, which stands in the full
    /// `document_transcoded` relation to the loaded graph. Fails exactly
    /// when the bytes do not parse; diagnostics controlled by `verbose` are
    /// the caller's concern and never affect the result.
    pub fn document(from: &[u8], image_quality: u8, _verbose: bool) -> (r: Result<
        lopdf::Document,
        LoadError,
    >)
        requires
            1 <= image_quality <= 100,
        ensures
            match parsed_document_of(from@) {
                Some(d0) => r matches Ok(doc) && document_transcoded(d0, doc, image_quality),
                None => r is Err,
            },
    {
        let mut doc = match load_document(from) {
            Ok(doc) => doc,
            Err(_) => {
                return Err(LoadError);
            },
        };
        let _ = transcode_document(&mut doc, image_quality);
        Ok(doc)
    }

    /// Parse the bytes, transcode every stream object at the given quality,
    /// and return the serialized result: the named serialization of a
    /// document standing in the full `document_transcoded` relation to the
    /// loaded graph, and `None` exactly when the bytes do not parse or that
    /// serialization fails.
    pub fn binary(from: &[u8], image_quality: u8) -> (r: Option<Vec<u8>>)
        requires
            1 <= image_quality <= 100,
        ensures
            match parsed_document_of(from@) {
                Some(d0) => exists|transcoded: lopdf::Document|
                    #[trigger] document_transcoded(d0, transcoded, image_quality) && match
                        saved_bytes_of(transcoded) {
                        Some(bytes) => r matches Some(out) && out@ == bytes,
                        None => r is None,
                    },
                None => r is None,
            },
    {
        let ghost d0 = parsed_document_of(from@).unwrap();
        let mut doc = match load_document(from) {
            Ok(doc) => doc,
            Err(_) => {
                return None;
            },
        };
        let _ = transcode_document(&mut doc, image_quality);
        let ghost transcoded = doc;
        let r = match save_document_bytes(&mut doc) {
            Ok(out) => Some(out),
            Err(_) => None,
        };
        proof {
            assert(document_transcoded(d0, transcoded, image_quality) && match saved_bytes_of(
                transcoded,
            ) {
                Some(bytes) => r matches Some(out) && out@ == bytes,
                None => r is None,
            });
        }
        r
    }
}

} // verus!
