//! End-to-end tests of the per-stream transcoder and the document pipeline,
//! run against real documents built with the document-model library.

use pdf_compressor::pipeline::{transcode_document, CompressPdf};
use pdf_compressor::recode::RecodeError;
use pdf_compressor::stream::{plan_transcode, transcode_stream, TranscodeOutcome};
use std::io::{Read, Write};

fn make_rgb_jpeg(width: u16, height: u16, pixels: &[u8], quality: u8) -> Vec<u8> {
    let mut out = Vec::new();
    let encoder = jpeg_encoder::Encoder::new(&mut out, quality);
    encoder
        .encode(pixels, width, height, jpeg_encoder::ColorType::Rgb)
        .expect("encoding a well-formed pixel buffer");
    out
}

fn zlib_fast(data: &[u8]) -> Vec<u8> {
    let mut encoder = flate2::write::ZlibEncoder::new(Vec::new(), flate2::Compression::fast());
    encoder.write_all(data).expect("write into memory");
    encoder.finish().expect("finish zlib stream")
}

fn zlib_decode(data: &[u8]) -> Vec<u8> {
    let mut decoder = flate2::read::ZlibDecoder::new(data);
    let mut out = Vec::new();
    decoder.read_to_end(&mut out).expect("valid zlib stream");
    out
}

fn single_stream_doc(stream: lopdf::Stream) -> (lopdf::Document, (u32, u16)) {
    let mut doc = lopdf::Document::with_version("1.5");
    let stream_id = doc.add_object(lopdf::Object::Stream(stream));
    (doc, stream_id)
}

fn stream_at(doc: &lopdf::Document, id: (u32, u16)) -> &lopdf::Stream {
    match doc.get_object(id).expect("object present") {
        lopdf::Object::Stream(s) => s,
        _ => panic!("expected a stream object"),
    }
}

#[test]
fn flagged_stream_untouched() {
    // Not an image, not extra-wrapped, and flagged ineligible: the pipeline
    // must leave the content byte-identical.
    let content = b"BT /F1 12 Tf 72 712 Td (flagged) Tj ET".to_vec();
    let stream =
        lopdf::Stream::new(lopdf::Dictionary::new(), content.clone()).with_compression(false);
    let (mut doc, id) = single_stream_doc(stream);
    let visited = transcode_document(&mut doc, 50);
    assert_eq!(visited, 1);
    assert_eq!(stream_at(&doc, id).content, content);
    assert!(!stream_at(&doc, id).is_compressed());
}

#[test]
fn zero_streams_unchanged() {
    let mut doc = lopdf::Document::with_version("1.5");
    let mut info = lopdf::Dictionary::new();
    info.set("Producer", lopdf::Object::string_literal("none"));
    doc.add_object(lopdf::Object::Dictionary(info));
    doc.add_object(lopdf::Object::Integer(7));
    let before = doc.objects.clone();
    let visited = transcode_document(&mut doc, 50);
    assert_eq!(visited, 0);
    assert_eq!(doc.objects.len(), before.len());
    assert_eq!(doc.objects, before);
}

#[test]
fn fallback_compress_roundtrip() {
    // Compressible non-image data: decompress, fallback compress, then
    // decompress again returns byte-identical content.
    let content = b"q 1 0 0 1 0 0 cm /Im0 Do Q ".repeat(40);
    let stream = lopdf::Stream::new(lopdf::Dictionary::new(), content.clone());
    let (mut doc, id) = single_stream_doc(stream);
    let visited = transcode_document(&mut doc, 50);
    assert_eq!(visited, 1);
    // The generic compressor really ran: smaller content, declared filter.
    assert!(stream_at(&doc, id).content.len() < content.len());
    assert!(stream_at(&doc, id).is_compressed());
    let mut recompressed = stream_at(&doc, id).clone();
    recompressed.decompress().expect("well-formed recompressed stream");
    assert_eq!(recompressed.content, content);
}

#[test]
fn extra_layer_restored_around_recoded_jpeg() {
    // A stream beginning 0x78 0x01 with valid zlib data wrapping a valid
    // JPEG: the pipeline must restore an equivalent zlib wrapper around the
    // recoded JPEG.
    let jpeg = make_rgb_jpeg(1, 1, &[80, 130, 180], 100);
    let wrapped = zlib_fast(&jpeg);
    assert_eq!(&wrapped[..2], &[0x78, 0x01]);
    let stream = lopdf::Stream::new(lopdf::Dictionary::new(), wrapped);
    let (mut doc, id) = single_stream_doc(stream);
    let visited = transcode_document(&mut doc, 50);
    assert_eq!(visited, 1);
    let out = &stream_at(&doc, id).content;
    assert_eq!(out[0], 0x78);
    let inner = zlib_decode(out);
    assert_eq!(&inner[..3], &[0xff, 0xd8, 0xff]);
    let reopened = image::load_from_memory(&inner).expect("recoded bytes decode");
    assert_eq!(reopened.width(), 1);
    assert_eq!(reopened.height(), 1);
}

#[test]
fn single_image_pdf_recoded() {
    // A 1x1-pixel, 3-channel JPEG in a minimal PDF, run at quality 50: the
    // stream decodes to a JPEG no larger than the original whose pixel is
    // within lossy tolerance of the source.
    let source_pixel = [90u8, 140, 190];
    let jpeg = make_rgb_jpeg(1, 1, &source_pixel, 100);
    let original_len = jpeg.len();

    let mut doc = lopdf::Document::with_version("1.5");
    let image_id = doc.add_object(lopdf::Object::Stream(lopdf::Stream::new(
        lopdf::Dictionary::new(),
        jpeg,
    )));
    let mut pages = lopdf::Dictionary::new();
    pages.set("Type", lopdf::Object::Name(b"Pages".to_vec()));
    pages.set("Count", lopdf::Object::Integer(0));
    pages.set("Kids", lopdf::Object::Array(vec![]));
    let pages_id = doc.add_object(lopdf::Object::Dictionary(pages));
    let mut catalog = lopdf::Dictionary::new();
    catalog.set("Type", lopdf::Object::Name(b"Catalog".to_vec()));
    catalog.set("Pages", lopdf::Object::Reference(pages_id));
    let catalog_id = doc.add_object(lopdf::Object::Dictionary(catalog));
    doc.trailer.set("Root", lopdf::Object::Reference(catalog_id));
    let mut bytes = Vec::new();
    doc.save_to(&mut bytes).expect("serialize the document");

    let result = CompressPdf::document(&bytes, 50, false).expect("a parseable document");
    let recoded = &stream_at(&result, image_id).content;
    assert_eq!(&recoded[..3], &[0xff, 0xd8, 0xff]);
    assert!(recoded.len() <= original_len);
    let reopened = image::load_from_memory(recoded).expect("recoded bytes decode");
    assert_eq!(reopened.width(), 1);
    assert_eq!(reopened.height(), 1);
    let decoded = reopened.to_rgb8();
    let pixel = decoded.get_pixel(0, 0);
    for channel in 0..3 {
        let got = pixel.0[channel] as i32;
        let expected = source_pixel[channel] as i32;
        assert!((got - expected).abs() <= 48, "channel {channel}: {got} vs {expected}");
    }
}

#[test]
fn binary_serializes_transcoded_document() {
    let mut doc = lopdf::Document::with_version("1.5");
    let mut catalog = lopdf::Dictionary::new();
    catalog.set("Type", lopdf::Object::Name(b"Catalog".to_vec()));
    let catalog_id = doc.add_object(lopdf::Object::Dictionary(catalog));
    doc.trailer.set("Root", lopdf::Object::Reference(catalog_id));
    let mut bytes = Vec::new();
    doc.save_to(&mut bytes).expect("serialize the document");

    let out = CompressPdf::binary(&bytes, 50).expect("parseable input serializes");
    assert_eq!(&out[..5], b"%PDF-");
}

#[test]
fn plan_recodes_plain_jpeg() {
    let jpeg = make_rgb_jpeg(1, 1, &[10, 20, 30], 100);
    let plan = plan_transcode(&jpeg, 50);
    let replacement = plan.replacement.expect("a decodable image is recoded");
    assert_eq!(&replacement[..3], &[0xff, 0xd8, 0xff]);
    assert!(!plan.fallback);
    assert_eq!(plan.failure, None);
}

#[test]
fn plan_degrades_on_undecodable_wrapped_image() {
    // An extra layer around bytes that carry the JPEG signature but do not
    // decode: the plan keeps the unwrapped bytes and degrades to the
    // generic fallback, reporting the decode failure.
    let fake_jpeg = vec![0xff, 0xd8, 0xff, 0xe0, 0x01, 0x02, 0x03];
    let wrapped = zlib_fast(&fake_jpeg);
    assert_eq!(&wrapped[..2], &[0x78, 0x01]);
    let plan = plan_transcode(&wrapped, 50);
    assert_eq!(plan.replacement, Some(fake_jpeg));
    assert!(plan.fallback);
    assert_eq!(plan.failure, Some(RecodeError::DecodeFailed));
}

#[test]
fn declared_image_filter_stream_recoded_in_place() {
    // A realistic image stream: the declared filter is one the document
    // model cannot decode, so standard decompression leaves the JPEG bytes
    // in place and the transcoder recodes them, keeping the filter entry.
    let jpeg = make_rgb_jpeg(1, 1, &[200, 100, 50], 100);
    let mut dict = lopdf::Dictionary::new();
    dict.set("Filter", lopdf::Object::Name(b"DCTDecode".to_vec()));
    let mut stream = lopdf::Stream::new(dict, jpeg);
    let outcome = transcode_stream(&mut stream, 50);
    assert_eq!(outcome, TranscodeOutcome::Recoded);
    assert_eq!(&stream.content[..3], &[0xff, 0xd8, 0xff]);
    assert!(stream.is_compressed());
    let reopened = image::load_from_memory(&stream.content).expect("recoded bytes decode");
    assert_eq!(reopened.width(), 1);
    assert_eq!(reopened.height(), 1);
}

#[test]
fn binary_deterministic() {
    // Two runs over identical input yield identical serialized bytes.
    let jpeg = make_rgb_jpeg(1, 1, &[60, 120, 180], 100);
    let mut doc = lopdf::Document::with_version("1.5");
    doc.add_object(lopdf::Object::Stream(lopdf::Stream::new(lopdf::Dictionary::new(), jpeg)));
    let mut catalog = lopdf::Dictionary::new();
    catalog.set("Type", lopdf::Object::Name(b"Catalog".to_vec()));
    let catalog_id = doc.add_object(lopdf::Object::Dictionary(catalog));
    doc.trailer.set("Root", lopdf::Object::Reference(catalog_id));
    let mut bytes = Vec::new();
    doc.save_to(&mut bytes).expect("serialize the document");

    let first = CompressPdf::binary(&bytes, 40).expect("parseable input serializes");
    let second = CompressPdf::binary(&bytes, 40).expect("parseable input serializes");
    assert_eq!(first, second);
}

#[test]
fn unparseable_input_is_rejected() {
    assert!(CompressPdf::document(b"not a document at all", 50, false).is_err());
    assert_eq!(CompressPdf::binary(b"not a document at all", 50), None);
}
