//! The document stage: turns raw source bytes into a rasterizable tree.
//!
//! The stage order is fixed: sniff and undo gzip compression, validate
//! UTF-8, parse the markup, decide from the parsed document whether a font
//! catalog is needed and only then build one, and convert the markup into
//! the renderable tree. Each stage maps its failure to its own error.

use vstd::prelude::*;
use vstd::utf8::{valid_utf8, decode_utf8};
use crate::errors::RenderError;
use crate::fonts::catalog_for_document;
use crate::plan::FontProperties;

verus! {

#[verifier::external_type_specification]
#[verifier::external_body]
pub struct ExXmlDocument<'input>(usvg::roxmltree::Document<'input>);

#[verifier::external_type_specification]
#[verifier::external_body]
pub struct ExUsvgOptions<'a>(usvg::Options<'a>);

#[verifier::external_type_specification]
#[verifier::external_body]
pub struct ExTree(usvg::Tree);

/// What a gzip-compressed byte stream inflates to, or nothing when the
/// stream is malformed.
pub uninterp spec fn svgz_decoded(data: Seq<u8>) -> Option<Seq<u8>>;

/// Whether a text parses as well-formed markup, with embedded type
/// declarations permitted.
pub uninterp spec fn xml_parses(text: Seq<char>) -> bool;

/// Relies on usvg::decompress_svgz: inflates a gzip-compressed stream; the
/// result depends on the bytes alone.
#[verifier::external_body]
fn svgz_decompress(data: &Vec<u8>) -> (r: Result<Vec<u8>, String>)
    ensures
        r is Ok <==> svgz_decoded(data@) is Some,
        r is Ok ==> r.unwrap()@ == svgz_decoded(data@).unwrap(),
{
    usvg::decompress_svgz(data.as_slice()).map_err(|e| e.to_string())
}

/// Relies on String::from_utf8: succeeds exactly on valid UTF-8 input and
/// decodes it.
#[verifier::external_body]
fn bytes_into_text(data: Vec<u8>) -> (r: Result<String, ()>)
    ensures
        r is Ok <==> valid_utf8(data@),
        r is Ok ==> r.unwrap()@ == decode_utf8(data@),
{
    String::from_utf8(data).map_err(|_| ())
}

/// Relies on roxmltree::Document::parse_with_options, with embedded type
/// declarations allowed: whether a text parses depends on its characters
/// alone.
#[verifier::external_body]
fn parse_xml<'a>(text: &'a str) -> (r: Result<usvg::roxmltree::Document<'a>, String>)
    ensures
        r is Ok <==> xml_parses(text@),
{
    let xml_opt = usvg::roxmltree::ParsingOptions { allow_dtd: true, ..Default::default() };
    usvg::roxmltree::Document::parse_with_options(text, xml_opt).map_err(|e| e.to_string())
}

/// Relies on roxmltree's descendants and has_tag_name: reports whether the
/// document contains any text-drawing element.
#[verifier::external_body]
fn doc_has_text<'a>(doc: &usvg::roxmltree::Document<'a>) -> (r: bool)
{
    doc.descendants().any(|n| n.has_tag_name(("http://www.w3.org/2000/svg", "text")))
}

/// Relies on usvg::Options::fontdb_mut: replaces the font database the
/// parsing options carry.
#[verifier::external_body]
fn opts_set_fontdb<'a>(opts: &mut usvg::Options<'a>, db: usvg::fontdb::Database)
{
    *opts.fontdb_mut() = db;
}

/// Relies on usvg::Tree::from_xmltree: converts parsed markup into the
/// renderable tree under the given parsing options.
#[verifier::external_body]
fn tree_from_doc<'a, 'b>(doc: &usvg::roxmltree::Document<'a>, opts: &usvg::Options<'b>) -> (r:
    Result<usvg::Tree, String>)
{
    usvg::Tree::from_xmltree(doc, opts).map_err(|e| e.to_string())
}

/// Relies on usvg::Tree::size and tiny_skia's Size::to_int_size: the
/// intrinsic size of a tree in whole pixels, never zero in either dimension.
#[verifier::external_body]
pub fn tree_int_size(tree: &usvg::Tree) -> (r: (u32, u32))
    ensures
        r.0 >= 1,
        r.1 >= 1,
{
    let size = tree.size().to_int_size();
    (size.width(), size.height())
}

/// Whether a byte stream begins with the gzip magic prefix.
pub open spec fn gzip_prefixed(data: Seq<u8>) -> bool {
    data.len() >= 2 && data[0] == 0x1f && data[1] == 0x8b
}

/// The plain source bytes: a gzip-prefixed stream inflated, any other stream
/// unchanged; nothing when inflation fails.
pub open spec fn source_bytes_spec(data: Seq<u8>) -> Option<Seq<u8>> {
    if gzip_prefixed(data) {
        svgz_decoded(data)
    } else {
        Some(data)
    }
}

/// The source text: the plain source bytes decoded as UTF-8; nothing when
/// the stream does not inflate or is not valid UTF-8.
pub open spec fn source_text_spec(data: Seq<u8>) -> Option<Seq<char>> {
    match source_bytes_spec(data) {
        None => None,
        Some(bytes) => if valid_utf8(bytes) {
            Some(decode_utf8(bytes))
        } else {
            None
        },
    }
}

/// Turns raw source bytes into a renderable document tree under a plan's
/// font settings and pre-built parsing options.
///
/// A gzip-prefixed stream that does not inflate is a decompression error and
/// nothing else; bytes that are not UTF-8 are an encoding error; text that
/// is not well-formed markup is a parse error. The font catalog is built
/// only when the parsed document contains a text-drawing element.
pub fn prepare_tree<'a>(
    data: Vec<u8>,
    fonts: &FontProperties,
    opts: usvg::Options<'a>,
) -> (r: Result<usvg::Tree, RenderError>)
    ensures
        (gzip_prefixed(data@) && svgz_decoded(data@) is None) <==> (r matches Err(
            RenderError::Decompress { .. },
        )),
        (source_bytes_spec(data@) matches Some(b) && !valid_utf8(b)) <==> r == Err::<usvg::Tree, _>(
            RenderError::Encoding,
        ),
        (source_text_spec(data@) matches Some(t) && !xml_parses(t)) ==> (r matches Err(
            RenderError::Parse { .. },
        )),
        r is Err ==> {
            ||| r.unwrap_err() matches RenderError::Decompress { .. }
            ||| r.unwrap_err() == RenderError::Encoding
            ||| r.unwrap_err() matches RenderError::Parse { .. }
            ||| r.unwrap_err() matches RenderError::FontFile { .. }
        },
        r matches Err(RenderError::FontFile { path, .. }) ==> exists|i: int|
            0 <= i < fonts.font_files@.len() && fonts.font_files@[i] == path,
{
    let is_gzip = data.len() >= 2 && data[0] == 0x1f && data[1] == 0x8b;
    let plain: Vec<u8> = if is_gzip {
        match svgz_decompress(&data) {
            Ok(inflated) => inflated,
            Err(message) => {
                return Err(RenderError::Decompress { message });
            },
        }
    } else {
        data
    };

    let text: String = match bytes_into_text(plain) {
        Ok(t) => t,
        Err(_) => {
            return Err(RenderError::Encoding);
        },
    };

    let doc = match parse_xml(text.as_str()) {
        Ok(d) => d,
        Err(message) => {
            return Err(RenderError::Parse { message });
        },
    };

    let has_text = doc_has_text(&doc);
    let mut opts = opts;
    match catalog_for_document(has_text, fonts) {
        Ok(Some(db)) => opts_set_fontdb(&mut opts, db),
        Ok(None) => {},
        Err(e) => {
            return Err(e);
        },
    }

    match tree_from_doc(&doc, &opts) {
        Ok(tree) => Ok(tree),
        Err(message) => Err(RenderError::Parse { message }),
    }
}

} // verus!
